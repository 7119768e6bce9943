use vstd::prelude::*;

use crate::settings::{spec_join, Settings};

verus! {

/// A course: a filesystem anchor under which rendered template instances are
/// placed. The `code` doubles as the course's directory name; the optional
/// `name` is descriptive only.
pub struct Course {
    pub code: String,
    pub name: Option<String>,
}

impl Course {
    /// Makes a course record with the given code and descriptive name.
    pub fn new(code: String, name: Option<String>) -> (r: Self)
        ensures
            r.code == code,
            r.name == name,
    {
        Course { code, name }
    }

    /// Makes a course record from a code alone.
    pub fn from_code(code: String) -> (r: Self)
        ensures
            r.code == code,
            r.name is None,
    {
        Course { code, name: Option::None }
    }

    /// The course's code.
    pub fn code(&self) -> (r: &str)
        ensures
            r@ == self.code@,
    {
        self.code.as_str()
    }

    /// The course's directory: the root under which rendered instances go.
    pub fn dir(&self, settings: &Settings) -> (r: String)
        ensures
            r@ == spec_join(settings.path@, self.code@),
    {
        settings.course_dir(self.code.as_str())
    }

    /// The course's private data directory.
    pub fn unii_dir(&self, settings: &Settings) -> (r: String)
        ensures
            r@ == spec_join(spec_join(settings.path@, self.code@), ".unii"@),
    {
        settings.course_unii_dir(self.code.as_str())
    }

    /// The course's private template directory.
    pub fn template_dir(&self, settings: &Settings) -> (r: String)
        ensures
            r@ == spec_join(
                spec_join(spec_join(settings.path@, self.code@), ".unii"@),
                "templates"@,
            ),
    {
        settings.course_template_dir(self.code.as_str())
    }

    /// The path of the course's persisted record.
    pub fn yaml_path(&self, settings: &Settings) -> (r: String)
        ensures
            r@ == spec_join(
                spec_join(spec_join(settings.path@, self.code@), ".unii"@),
                "course.yml"@,
            ),
    {
        settings.course_yaml_path(self.code.as_str())
    }
}

} // verus!
