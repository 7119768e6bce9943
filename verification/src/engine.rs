use vstd::prelude::*;

use crate::filters::CaseKind;

verus! {

#[verifier::external_type_specification]
#[verifier::external_body]
pub struct ExTera(tera::Tera);

#[verifier::external_type_specification]
#[verifier::external_body]
pub struct ExTeraContext(tera::Context);

#[verifier::external_type_specification]
#[verifier::external_body]
pub struct ExJsonValue(serde_json::Value);

/// Relies on tera::Tera::default: a fresh template engine.
#[verifier::external_body]
fn tera_default() -> tera::Tera {
    tera::Tera::default()
}

/// Relies on tera::Tera::register_filter: binds a filter under the given
/// name. Tera hands each call's value and named arguments to the closure,
/// which unwraps the value's string, if it is one, and hands everything on
/// to the library's own filter logic.
#[verifier::external_body]
fn register_case(t: &mut tera::Tera, name: &str, kind: CaseKind) {
    let owned = name.to_string();
    t.register_filter(
        name,
        move |value: &tera::Value, args: &std::collections::HashMap<String, tera::Value>| {
            let s = match value {
                tera::Value::String(s) => Some(s.clone()),
                _ => None,
            };
            match crate::filters::filter_call(kind, &owned, s, args.len()) {
                Ok(out) => Ok(tera::Value::String(out)),
                Err(msg) => Err(tera::Error::msg(msg)),
            }
        },
    );
}

/// Relies on tera::Context::new: an empty render context.
#[verifier::external_body]
fn context_new() -> tera::Context {
    tera::Context::new()
}

/// Relies on tera::Context::insert: binds a value under a key.
#[verifier::external_body]
fn context_insert(c: &mut tera::Context, key: &str, value: &serde_json::Value) {
    c.insert(key, value);
}

/// Relies on tera::Tera::render_str: renders a one-off template source
/// against a context; the outcome is the engine's to decide.
#[verifier::external_body]
pub(crate) fn render_template(t: &mut tera::Tera, source: &str, c: &tera::Context) -> Result<
    String,
    String,
> {
    t.render_str(source, c).map_err(|e| e.to_string())
}

/// A fresh engine with every case-conversion filter registered under each of
/// its aliases.
pub(crate) fn build_engine() -> tera::Tera {
    let mut t = tera_default();
    register_case(&mut t, "UpperCamelCase", CaseKind::UpperCamel);
    register_case(&mut t, "PascalCase", CaseKind::UpperCamel);
    register_case(&mut t, "lowerCamelCase", CaseKind::LowerCamel);
    register_case(&mut t, "camelCase", CaseKind::LowerCamel);
    register_case(&mut t, "snake_case", CaseKind::Snake);
    register_case(&mut t, "lower_snake_case", CaseKind::Snake);
    register_case(&mut t, "kebab-case", CaseKind::Kebab);
    register_case(&mut t, "lower-kebab-case", CaseKind::Kebab);
    register_case(&mut t, "SHOUTY_SNAKE_CASE", CaseKind::ShoutySnake);
    register_case(&mut t, "UPPER_SNAKE_CASE", CaseKind::ShoutySnake);
    register_case(&mut t, "SCREAMING_SNAKE_CASE", CaseKind::ShoutySnake);
    register_case(&mut t, "shouty-kebab-case", CaseKind::ShoutyKebab);
    register_case(&mut t, "upper-kebab-case", CaseKind::ShoutyKebab);
    register_case(&mut t, "screaming-kebab-case", CaseKind::ShoutyKebab);
    register_case(&mut t, "Train-Case", CaseKind::Train);
    register_case(&mut t, "Title-Kebab-Case", CaseKind::Train);
    t
}

/// A render context holding every supplied key/value pair.
pub(crate) fn build_context(pairs: &Vec<(String, serde_json::Value)>) -> tera::Context {
    let mut c = context_new();
    let n = pairs.len();
    let mut i: usize = 0;
    while i < n
        invariant
            i <= n,
            n == pairs@.len(),
        decreases n - i,
    {
        context_insert(&mut c, pairs[i].0.as_str(), &pairs[i].1);
        i += 1;
    }
    c
}

} // verus!
