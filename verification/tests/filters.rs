use unii::{apply_case, filter_call, CaseKind};

#[test]
fn upper_camel_exact() {
    assert_eq!(apply_case(CaseKind::UpperCamel, "hello_world"), "HelloWorld");
}

#[test]
fn lower_camel_exact() {
    assert_eq!(apply_case(CaseKind::LowerCamel, "Hello_World"), "helloWorld");
}

#[test]
fn snake_exact() {
    assert_eq!(apply_case(CaseKind::Snake, "HelloWorld"), "hello_world");
}

#[test]
fn kebab_exact() {
    assert_eq!(apply_case(CaseKind::Kebab, "HelloWorld"), "hello-world");
}

#[test]
fn shouty_snake_exact() {
    assert_eq!(apply_case(CaseKind::ShoutySnake, "helloWorld"), "HELLO_WORLD");
}

#[test]
fn shouty_kebab_exact() {
    assert_eq!(apply_case(CaseKind::ShoutyKebab, "helloWorld"), "HELLO-WORLD");
}

#[test]
fn train_exact() {
    assert_eq!(apply_case(CaseKind::Train, "hello_world"), "Hello-World");
}

#[test]
fn empty_input_stays_empty() {
    assert_eq!(apply_case(CaseKind::Snake, ""), "");
    assert_eq!(apply_case(CaseKind::UpperCamel, ""), "");
}

#[test]
fn filter_call_converts_string_value() {
    let r = filter_call(CaseKind::Snake, "snake_case", Some("HelloWorld".to_string()), 0);
    assert_eq!(r, Ok("hello_world".to_string()));
}

#[test]
fn filter_call_is_deterministic() {
    let a = filter_call(CaseKind::Kebab, "kebab-case", Some("SomeValue".to_string()), 0);
    let b = filter_call(CaseKind::Kebab, "kebab-case", Some("SomeValue".to_string()), 0);
    assert_eq!(a, b);
}

#[test]
fn filter_call_rejects_named_arguments() {
    let r = filter_call(CaseKind::Snake, "snake_case", Some("x".to_string()), 1);
    assert_eq!(
        r,
        Err("Filter `snake_case` does not accept any arguments".to_string())
    );
}

#[test]
fn filter_call_rejects_non_string_value() {
    let r = filter_call(CaseKind::Train, "Train-Case", None, 0);
    assert_eq!(
        r,
        Err("Filter `Train-Case` was called on a value that is not a string".to_string())
    );
}
