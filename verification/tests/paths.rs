use unii::{Course, Settings};

#[test]
fn settings_path_helpers() {
    let s = Settings::new("/data/uni".to_string());
    assert_eq!(s.course_dir("cs101"), "/data/uni/cs101");
    assert_eq!(s.course_unii_dir("cs101"), "/data/uni/cs101/.unii");
    assert_eq!(s.course_template_dir("cs101"), "/data/uni/cs101/.unii/templates");
    assert_eq!(s.course_yaml_path("cs101"), "/data/uni/cs101/.unii/course.yml");
    assert_eq!(s.template_dir(), "/data/uni/.unii/templates");
}

#[test]
fn template_path_resolution_matches_scope() {
    let s = Settings::new("/data/uni".to_string());
    assert_eq!(s.template_path(None, "widget"), "/data/uni/.unii/templates/widget.yml");
    let course = Course::from_code("cs101".to_string());
    assert_eq!(
        s.template_path(Some(&course), "widget"),
        "/data/uni/cs101/.unii/templates/widget.yml"
    );
}

#[test]
fn course_paths_follow_settings() {
    let s = Settings::new("/data/uni".to_string());
    let c = Course::new("cs101".to_string(), Some("Intro".to_string()));
    assert_eq!(c.code(), "cs101");
    assert_eq!(c.dir(&s), "/data/uni/cs101");
    assert_eq!(c.unii_dir(&s), "/data/uni/cs101/.unii");
    assert_eq!(c.template_dir(&s), "/data/uni/cs101/.unii/templates");
    assert_eq!(c.yaml_path(&s), "/data/uni/cs101/.unii/course.yml");
}
