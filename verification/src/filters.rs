use vstd::prelude::*;
use vstd::string::*;

verus! {

/// The case conversions the template language can apply to a string value.
#[derive(Clone, Copy, Debug, PartialEq, Eq, Structural)]
pub enum CaseKind {
    /// `UpperCamelCase`, also known as Pascal case.
    UpperCamel,
    /// `lowerCamelCase`.
    LowerCamel,
    /// `snake_case`.
    Snake,
    /// `kebab-case`.
    Kebab,
    /// `SHOUTY_SNAKE_CASE`.
    ShoutySnake,
    /// `SHOUTY-KEBAB-CASE`.
    ShoutyKebab,
    /// `Train-Case`.
    Train,
}

pub uninterp spec fn upper_camel_of(s: Seq<char>) -> Seq<char>;

pub uninterp spec fn lower_camel_of(s: Seq<char>) -> Seq<char>;

pub uninterp spec fn snake_of(s: Seq<char>) -> Seq<char>;

pub uninterp spec fn kebab_of(s: Seq<char>) -> Seq<char>;

pub uninterp spec fn shouty_snake_of(s: Seq<char>) -> Seq<char>;

pub uninterp spec fn shouty_kebab_of(s: Seq<char>) -> Seq<char>;

pub uninterp spec fn train_of(s: Seq<char>) -> Seq<char>;

/// Relies on heck's `to_upper_camel_case`: the result depends on the
/// characters of `s` alone.
#[verifier::external_body]
fn to_upper_camel(s: &str) -> (r: String)
    ensures
        r@ == upper_camel_of(s@),
{
    heck::ToUpperCamelCase::to_upper_camel_case(s)
}

/// Relies on heck's `to_lower_camel_case`: the result depends on the
/// characters of `s` alone.
#[verifier::external_body]
fn to_lower_camel(s: &str) -> (r: String)
    ensures
        r@ == lower_camel_of(s@),
{
    heck::ToLowerCamelCase::to_lower_camel_case(s)
}

/// Relies on heck's `to_snake_case`: the result depends on the characters of
/// `s` alone.
#[verifier::external_body]
fn to_snake(s: &str) -> (r: String)
    ensures
        r@ == snake_of(s@),
{
    heck::ToSnakeCase::to_snake_case(s)
}

/// Relies on heck's `to_kebab_case`: the result depends on the characters of
/// `s` alone.
#[verifier::external_body]
fn to_kebab(s: &str) -> (r: String)
    ensures
        r@ == kebab_of(s@),
{
    heck::ToKebabCase::to_kebab_case(s)
}

/// Relies on heck's `to_shouty_snake_case`: the result depends on the
/// characters of `s` alone.
#[verifier::external_body]
fn to_shouty_snake(s: &str) -> (r: String)
    ensures
        r@ == shouty_snake_of(s@),
{
    heck::ToShoutySnakeCase::to_shouty_snake_case(s)
}

/// Relies on heck's `to_shouty_kebab_case`: the result depends on the
/// characters of `s` alone.
#[verifier::external_body]
fn to_shouty_kebab(s: &str) -> (r: String)
    ensures
        r@ == shouty_kebab_of(s@),
{
    heck::ToShoutyKebabCase::to_shouty_kebab_case(s)
}

/// Relies on heck's `to_train_case`: the result depends on the characters of
/// `s` alone.
#[verifier::external_body]
fn to_train(s: &str) -> (r: String)
    ensures
        r@ == train_of(s@),
{
    heck::ToTrainCase::to_train_case(s)
}

/// The conversion a given kind stands for, as a function of the input's
/// characters.
pub open spec fn spec_case_of(kind: CaseKind, s: Seq<char>) -> Seq<char> {
    match kind {
        CaseKind::UpperCamel => upper_camel_of(s),
        CaseKind::LowerCamel => lower_camel_of(s),
        CaseKind::Snake => snake_of(s),
        CaseKind::Kebab => kebab_of(s),
        CaseKind::ShoutySnake => shouty_snake_of(s),
        CaseKind::ShoutyKebab => shouty_kebab_of(s),
        CaseKind::Train => train_of(s),
    }
}

/// Applies the case conversion of the given kind to a string.
pub fn apply_case(kind: CaseKind, s: &str) -> (r: String)
    ensures
        r@ == spec_case_of(kind, s@),
{
    match kind {
        CaseKind::UpperCamel => to_upper_camel(s),
        CaseKind::LowerCamel => to_lower_camel(s),
        CaseKind::Snake => to_snake(s),
        CaseKind::Kebab => to_kebab(s),
        CaseKind::ShoutySnake => to_shouty_snake(s),
        CaseKind::ShoutyKebab => to_shouty_kebab(s),
        CaseKind::Train => to_train(s),
    }
}

/// What a filter call returns: the converted string on a string input with no
/// named arguments, an error otherwise.
pub open spec fn spec_filter_outcome(
    kind: CaseKind,
    name: Seq<char>,
    value: Option<Seq<char>>,
    n_args: nat,
) -> Result<Seq<char>, Seq<char>> {
    if n_args > 0 {
        Result::Err("Filter `"@ + name + "` does not accept any arguments"@)
    } else {
        match value {
            Option::Some(s) => Result::Ok(spec_case_of(kind, s)),
            Option::None => Result::Err(
                "Filter `"@ + name + "` was called on a value that is not a string"@,
            ),
        }
    }
}

/// One call of the named case-conversion filter: `value` is the string the
/// filter was applied to (`None` when the value was not a string) and
/// `n_args` how many named arguments were supplied. Errors exactly on a
/// non-string value or on any named argument.
pub fn filter_call(kind: CaseKind, name: &str, value: Option<String>, n_args: usize) -> (r: Result<
    String,
    String,
>)
    ensures
        ({
            let spec_value = match value {
                Option::Some(s) => Option::Some(s@),
                Option::None => Option::None,
            };
            match r {
                Result::Ok(out) => spec_filter_outcome(kind, name@, spec_value, n_args as nat)
                    == Result::<Seq<char>, Seq<char>>::Ok(out@),
                Result::Err(msg) => spec_filter_outcome(kind, name@, spec_value, n_args as nat)
                    == Result::<Seq<char>, Seq<char>>::Err(msg@),
            }
        }),
{
    proof {
        reveal_strlit("Filter `");
        reveal_strlit("` does not accept any arguments");
        reveal_strlit("` was called on a value that is not a string");
    }
    if n_args > 0 {
        let mut m = "Filter `".to_owned();
        m.append(name);
        m.append("` does not accept any arguments");
        proof {
            assert(m@ =~= "Filter `"@ + name@ + "` does not accept any arguments"@);
        }
        Result::Err(m)
    } else {
        match value {
            Option::Some(s) => Result::Ok(apply_case(kind, s.as_str())),
            Option::None => {
                let mut m = "Filter `".to_owned();
                m.append(name);
                m.append("` was called on a value that is not a string");
                proof {
                    assert(m@ =~= "Filter `"@ + name@
                        + "` was called on a value that is not a string"@);
                }
                Result::Err(m)
            },
        }
    }
}

/// Each case-conversion filter is deterministic: the outcome of a filter
/// call is fixed by the filter, the value and the argument count alone — a
/// string value yields exactly that string's conversion, and any call with a
/// named argument, or on a non-string value, is rejected.
pub proof fn lemma_filter_deterministic(
    kind: CaseKind,
    name: Seq<char>,
    value: Option<Seq<char>>,
    n_args: nat,
)
    ensures
        n_args > 0 ==> spec_filter_outcome(kind, name, value, n_args) is Err,
        n_args == 0 && value is None ==> spec_filter_outcome(kind, name, value, n_args) is Err,
        n_args == 0 && value is Some ==> spec_filter_outcome(kind, name, value, n_args)
            == Result::<Seq<char>, Seq<char>>::Ok(spec_case_of(kind, value->0)),
{
}

} // verus!
