use unii::{template_file_stem, Error, Settings, Template};

fn sample_template() -> Template {
    Template {
        name: "assignment".to_string(),
        pluralized_name: "assignments".to_string(),
        context_parameters: vec!["name".to_string(), "number".to_string()],
        directory_name: "{{ number }}".to_string(),
        files: vec![
            ("README.md".to_string(), "# {{ name }}".to_string()),
            ("src/main.tex".to_string(), "\\title{ {{- name -}} }".to_string()),
        ],
        command: "touch notes.md".to_string(),
    }
}

#[test]
fn yaml_round_trip_keeps_every_field() {
    let t = sample_template();
    let yaml = t.to_yaml_string().expect("serialization should succeed");
    let back = Template::from_yaml_str("assignment".to_string(), &yaml)
        .expect("parsing back should succeed");
    assert_eq!(back.name, t.name);
    assert_eq!(back.pluralized_name, t.pluralized_name);
    assert_eq!(back.context_parameters, t.context_parameters);
    assert_eq!(back.directory_name, t.directory_name);
    assert_eq!(back.files, t.files);
    assert_eq!(back.command, t.command);
}

#[test]
fn from_yaml_flattens_nested_files() {
    let yaml = "pluralized-name: widgets\n\
                context-parameters: []\n\
                directory-name: w\n\
                files:\n  src:\n    main.ext: body\n\
                command: 'true'\n";
    let t = Template::from_yaml_str("widget".to_string(), yaml).expect("should parse");
    assert_eq!(t.files, vec![("src/main.ext".to_string(), "body".to_string())]);
}

#[test]
fn from_yaml_rejects_unparsable_text() {
    let r = Template::from_yaml_str("x".to_string(), ": : :");
    assert!(matches!(r, Err(Error::Yaml(_))));
}

#[test]
fn from_yaml_rejects_missing_field() {
    let yaml = "pluralized-name: widgets\ndirectory-name: w\nfiles: {}\ncommand: 'true'\n";
    let r = Template::from_yaml_str("x".to_string(), yaml);
    assert!(matches!(r, Err(Error::Yaml(_))));
}

#[test]
fn from_yaml_rejects_non_string_parameter() {
    let yaml = "pluralized-name: widgets\n\
                context-parameters: [name, 3]\n\
                directory-name: w\nfiles: {}\ncommand: 'true'\n";
    let r = Template::from_yaml_str("x".to_string(), yaml);
    assert!(matches!(r, Err(Error::Yaml(_))));
}

#[test]
fn from_name_defaults_plural() {
    let t = Template::from_name("widget".to_string(), None);
    assert_eq!(t.name, "widget");
    assert_eq!(t.pluralized_name, "widgets");
    assert!(t.context_parameters.is_empty());
    assert_eq!(t.directory_name, "");
    assert!(t.files.is_empty());
    assert_eq!(t.command, "");
}

#[test]
fn from_name_explicit_plural() {
    let t = Template::from_name("quiz".to_string(), Some("quizzes".to_string()));
    assert_eq!(t.pluralized_name, "quizzes");
}

#[test]
fn create_refused_when_definition_exists() {
    let t = Template::from_name("widget".to_string(), None);
    match t.create_checked(true) {
        Err(e) => assert_eq!(e, Error::TemplateAlreadyExists("widget".to_string())),
        Ok(_) => panic!("expected creation to be refused"),
    }
}

#[test]
fn create_allowed_when_definition_absent() {
    let t = Template::from_name("widget".to_string(), None);
    let t = t.create_checked(false).expect("creation should be allowed");
    assert_eq!(t.name, "widget");
    assert_eq!(t.pluralized_name, "widgets");
}

#[test]
fn template_path_under_global_store() {
    let settings = Settings::new("/data/uni".to_string());
    let t = Template::from_name("widget".to_string(), None);
    assert_eq!(t.path(&settings), "/data/uni/.unii/templates/widget.yml");
}

#[test]
fn file_stem_accepts_yml_only() {
    assert_eq!(template_file_stem("widget.yml"), Some("widget".to_string()));
    assert_eq!(template_file_stem("widget.yaml"), None);
    assert_eq!(template_file_stem(".yml"), None);
    assert_eq!(template_file_stem("notes.txt"), None);
    assert_eq!(template_file_stem("a.b.yml"), Some("a.b".to_string()));
}
