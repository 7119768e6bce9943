use vstd::prelude::*;
use vstd::string::*;

verus! {

/// The position of the first occurrence of `c` in `s`, if any.
fn find_char(s: &str, c: char) -> (r: Option<usize>)
    ensures
        match r {
            Option::Some(i) => i < s@.len() && s@[i as int] == c && (forall|j: int|
                0 <= j < i ==> s@[j] != c),
            Option::None => forall|j: int| 0 <= j < s@.len() ==> s@[j] != c,
        },
{
    let n = s.unicode_len();
    let mut i: usize = 0;
    while i < n
        invariant
            i <= n,
            n == s@.len(),
            forall|j: int| 0 <= j < i ==> s@[j] != c,
        decreases n - i,
    {
        if s.get_char(i) == c {
            return Option::Some(i);
        }
        i += 1;
    }
    Option::None
}

/// Splits a `source:name` argument at its first `:` into an optional course
/// source and a template name; an argument without `:` is a bare name.
pub fn parse_course_template(s: &str) -> (r: (Option<String>, String))
    ensures
        match r.0 {
            Option::Some(src) => {
                let i = src@.len() as int;
                &&& 0 <= i < s@.len()
                &&& s@[i] == ':'
                &&& src@ == s@.take(i)
                &&& r.1@ == s@.skip(i + 1)
                &&& forall|j: int| 0 <= j < i ==> s@[j] != ':'
            },
            Option::None => r.1@ == s@ && (forall|j: int| 0 <= j < s@.len() ==> s@[j] != ':'),
        },
{
    let n = s.unicode_len();
    match find_char(s, ':') {
        Option::Some(i) => {
            let src = s.substring_char(0, i).to_owned();
            let name = s.substring_char(i + 1, n).to_owned();
            proof {
                assert(src@ =~= s@.take(i as int));
                assert(name@ =~= s@.skip(i + 1));
            }
            (Option::Some(src), name)
        },
        Option::None => (Option::None, s.to_owned()),
    }
}

/// Relies on serde_json::from_str: text that parses as JSON becomes the
/// parsed value.
#[verifier::external_body]
fn json_from_str(s: &str) -> Option<serde_json::Value> {
    serde_json::from_str(s).ok()
}

/// Relies on serde_json's `Value::String` constructor: wraps the text as a
/// JSON string value.
#[verifier::external_body]
fn json_string(s: &str) -> serde_json::Value {
    serde_json::Value::String(s.to_string())
}

/// Splits a `key=value` context argument at its first `=`. The value text is
/// read as a structured literal when it parses as one and as a plain string
/// otherwise; an argument without `=` is rejected with a message.
pub fn parse_context(s: &str) -> (r: Result<(String, serde_json::Value), String>)
    ensures
        match r {
            Result::Ok(kv) => {
                let i = kv.0@.len() as int;
                &&& 0 <= i < s@.len()
                &&& s@[i] == '='
                &&& kv.0@ == s@.take(i)
                &&& forall|j: int| 0 <= j < i ==> s@[j] != '='
            },
            Result::Err(m) => (forall|j: int| 0 <= j < s@.len() ==> s@[j] != '=') && m@
                == "invalid context: missing '='"@,
        },
{
    let n = s.unicode_len();
    match find_char(s, '=') {
        Option::Some(i) => {
            let key = s.substring_char(0, i).to_owned();
            let value_text = s.substring_char(i + 1, n);
            let value = match json_from_str(value_text) {
                Option::Some(v) => v,
                Option::None => json_string(value_text),
            };
            proof {
                assert(key@ =~= s@.take(i as int));
            }
            Result::Ok((key, value))
        },
        Option::None => Result::Err("invalid context: missing '='".to_owned()),
    }
}

} // verus!
