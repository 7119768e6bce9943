use unii::{parse_context, parse_course_template, Error};

#[test]
fn course_qualified_template_name() {
    let (source, name) = parse_course_template("cs101:widget");
    assert_eq!(source, Some("cs101".to_string()));
    assert_eq!(name, "widget");
}

#[test]
fn bare_template_name() {
    let (source, name) = parse_course_template("widget");
    assert_eq!(source, None);
    assert_eq!(name, "widget");
}

#[test]
fn splits_at_first_colon_only() {
    let (source, name) = parse_course_template("a:b:c");
    assert_eq!(source, Some("a".to_string()));
    assert_eq!(name, "b:c");
}

#[test]
fn context_plain_string_value() {
    let (key, value) = parse_context("name=widget").expect("should parse");
    assert_eq!(key, "name");
    assert_eq!(value, serde_json::Value::String("widget".to_string()));
}

#[test]
fn context_structured_value() {
    let (key, value) = parse_context("number=5").expect("should parse");
    assert_eq!(key, "number");
    assert_eq!(value, serde_json::Value::Number(serde_json::Number::from(5u32)));
    let (_, flag) = parse_context("flag=true").expect("should parse");
    assert_eq!(flag, serde_json::Value::Bool(true));
}

#[test]
fn context_empty_value_is_empty_string() {
    let (key, value) = parse_context("k=").expect("should parse");
    assert_eq!(key, "k");
    assert_eq!(value, serde_json::Value::String(String::new()));
}

#[test]
fn context_without_equals_is_rejected() {
    let r = parse_context("novalue");
    assert_eq!(r, Err("invalid context: missing '='".to_string()));
}

#[test]
fn error_messages_are_exact() {
    assert_eq!(
        Error::CourseAlreadyExists("cs101".to_string()).message(),
        "course with code already exists: cs101"
    );
    assert_eq!(
        Error::CourseDoesNotExist("cs101".to_string()).message(),
        "course with code does not exist: cs101"
    );
    assert_eq!(
        Error::TemplateAlreadyExists("widget".to_string()).message(),
        "template already exists: widget"
    );
    assert_eq!(
        Error::TemplateDoesNotExist(None, "widget".to_string()).message(),
        "template does not exist: widget"
    );
    assert_eq!(
        Error::TemplateDoesNotExist(Some("cs101".to_string()), "widget".to_string()).message(),
        "template does not exist: cs101:widget"
    );
    assert_eq!(
        Error::TemplateContextParameterDoesNotExist("unused".to_string()).message(),
        "template context parameter does not exist: unused"
    );
    assert_eq!(Error::TemplateCommandIsEmpty.message(), "template command is empty");
    assert_eq!(
        Error::TemplateCommandFailed("exit 1".to_string(), "boom".to_string()).message(),
        "template command failed: exit 1\nboom"
    );
    assert_eq!(
        Error::RenderAlreadyExists("Widget".to_string()).message(),
        "template directory already exists: Widget"
    );
    assert_eq!(Error::Yaml("bad".to_string()).message(), "yaml error: bad");
    assert_eq!(
        Error::Render("bad".to_string()).message(),
        "template render error: bad"
    );
}
