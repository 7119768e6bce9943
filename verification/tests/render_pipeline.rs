use unii::{validate_command, Course, Error, Settings, Template};

fn widget_template() -> Template {
    Template {
        name: "widget".to_string(),
        pluralized_name: "widgets".to_string(),
        context_parameters: vec!["name".to_string()],
        directory_name: "{{ name }}".to_string(),
        files: vec![("README.md".to_string(), "# {{ name }}".to_string())],
        command: "true".to_string(),
    }
}

fn ctx(pairs: &[(&str, &str)]) -> Vec<(String, serde_json::Value)> {
    pairs
        .iter()
        .map(|(k, v)| (k.to_string(), serde_json::Value::String(v.to_string())))
        .collect()
}

#[test]
fn full_pipeline_renders_widget() {
    let settings = Settings::new("/srv/uni".to_string());
    let course = Course::from_code("cs101".to_string());
    let template = widget_template();
    let context = ctx(&[("name", "widget")]);

    let started = template.render_start(&settings, &course, &context).expect("start");
    assert_eq!(started.directory_name, "widget");
    assert_eq!(started.target, "/srv/uni/cs101/widgets/widget");

    let checked = started.target_checked(false).expect("target free");
    let ready = checked.directory_created().expect("command renders");
    assert_eq!(ready.command, "true");

    let files_ready = ready.command_finished(true, String::new()).expect("command ok");
    let files = files_ready.render_files().expect("files render");
    assert_eq!(files.len(), 1);
    assert_eq!(files[0].path, "README.md");
    assert_eq!(files[0].content, "# widget");
    assert_eq!(files[0].full_path("/srv/uni/cs101/widgets/widget"),
        "/srv/uni/cs101/widgets/widget/README.md");
}

#[test]
fn existing_target_is_never_clobbered() {
    let settings = Settings::new("/srv/uni".to_string());
    let course = Course::from_code("cs101".to_string());
    let template = widget_template();
    let context = ctx(&[("name", "Widget")]);

    let started = template.render_start(&settings, &course, &context).expect("start");
    assert_eq!(started.directory_name, "Widget");
    let r = started.target_checked(true);
    match r {
        Err(e) => assert_eq!(e, Error::RenderAlreadyExists("Widget".to_string())),
        Ok(_) => panic!("expected the render to be refused"),
    }
}

#[test]
fn undeclared_context_key_fails_before_anything() {
    let settings = Settings::new("/srv/uni".to_string());
    let course = Course::from_code("cs101".to_string());
    let template = widget_template();
    let context = ctx(&[("name", "widget"), ("unused", "x")]);

    let r = template.render_start(&settings, &course, &context);
    assert_eq!(
        r.err().unwrap(),
        Error::TemplateContextParameterDoesNotExist("unused".to_string())
    );
}

#[test]
fn failing_command_reports_rendered_line_and_stderr() {
    let settings = Settings::new("/srv/uni".to_string());
    let course = Course::from_code("cs101".to_string());
    let mut template = widget_template();
    template.command = "exit 1".to_string();
    let context = ctx(&[("name", "widget")]);

    let started = template.render_start(&settings, &course, &context).expect("start");
    let checked = started.target_checked(false).expect("target free");
    let ready = checked.directory_created().expect("command renders");
    assert_eq!(ready.command, "exit 1");
    let r = ready.command_finished(false, "boom".to_string());
    match r {
        Err(e) => assert_eq!(e, Error::TemplateCommandFailed("exit 1".to_string(), "boom".to_string())),
        Ok(_) => panic!("expected the render to fail"),
    }
}

#[test]
fn missing_variable_is_a_render_error() {
    let settings = Settings::new("/srv/uni".to_string());
    let course = Course::from_code("cs101".to_string());
    let mut template = widget_template();
    template.directory_name = "{{ absent }}".to_string();
    let context = ctx(&[("name", "widget")]);

    let r = template.render_start(&settings, &course, &context);
    assert!(matches!(r, Err(Error::Render(_))));
}

#[test]
fn case_filters_apply_during_render() {
    let settings = Settings::new("/srv/uni".to_string());
    let course = Course::from_code("cs101".to_string());
    let mut template = widget_template();
    template.directory_name = "{{ name | snake_case }}".to_string();
    let context = ctx(&[("name", "HelloWorld")]);

    let started = template.render_start(&settings, &course, &context).expect("start");
    assert_eq!(started.directory_name, "hello_world");
}

// The hyphenated aliases are registered too, but the engine's expression
// grammar only permits identifier-shaped filter names, so only those can be
// invoked from template source; the hyphenated transforms are exercised
// through `apply_case` in the filter tests.
#[test]
fn every_filter_alias_is_registered() {
    let cases = [
        ("UpperCamelCase", "HelloWorld"),
        ("PascalCase", "HelloWorld"),
        ("lowerCamelCase", "helloWorld"),
        ("camelCase", "helloWorld"),
        ("snake_case", "hello_world"),
        ("lower_snake_case", "hello_world"),
        ("SHOUTY_SNAKE_CASE", "HELLO_WORLD"),
        ("UPPER_SNAKE_CASE", "HELLO_WORLD"),
        ("SCREAMING_SNAKE_CASE", "HELLO_WORLD"),
    ];
    let settings = Settings::new("/srv/uni".to_string());
    let course = Course::from_code("cs101".to_string());
    for (alias, expected) in cases {
        let mut template = widget_template();
        template.directory_name = format!("{{{{ name | {alias} }}}}");
        let context = ctx(&[("name", "hello_World")]);
        let started = template.render_start(&settings, &course, &context).expect(alias);
        assert_eq!(started.directory_name, expected, "alias {alias}");
    }
}

#[test]
fn filter_rejects_extra_arguments_through_engine() {
    let settings = Settings::new("/srv/uni".to_string());
    let course = Course::from_code("cs101".to_string());
    let mut template = widget_template();
    template.directory_name = "{{ name | snake_case(x=1) }}".to_string();
    let context = ctx(&[("name", "widget")]);

    let r = template.render_start(&settings, &course, &context);
    assert!(matches!(r, Err(Error::Render(_))));
}

#[test]
fn filter_rejects_non_string_value_through_engine() {
    let settings = Settings::new("/srv/uni".to_string());
    let course = Course::from_code("cs101".to_string());
    let mut template = widget_template();
    template.directory_name = "{{ name | snake_case }}".to_string();
    let context = vec![(
        "name".to_string(),
        serde_json::Value::Number(serde_json::Number::from(5u32)),
    )];

    let r = template.render_start(&settings, &course, &context);
    assert!(matches!(r, Err(Error::Render(_))));
}

#[test]
fn empty_command_is_rejected_by_validation() {
    assert_eq!(validate_command(""), Err(Error::TemplateCommandIsEmpty));
    assert_eq!(validate_command("true"), Ok(()));
}
