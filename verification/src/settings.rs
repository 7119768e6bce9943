use vstd::prelude::*;
use vstd::string::*;

use crate::course::Course;

verus! {

/// Where everything this tool manages is stored: `path` is the root
/// directory that holds one sub-directory per course.
pub struct Settings {
    pub path: String,
}

/// `a` and `b` joined with a single `/` separator.
pub open spec fn spec_join(a: Seq<char>, b: Seq<char>) -> Seq<char> {
    a + seq!['/'] + b
}

/// Joins two path fragments with a `/` separator.
pub fn path_join(a: &str, b: &str) -> (r: String)
    ensures
        r@ == spec_join(a@, b@),
{
    let mut s = a.to_owned();
    s.append("/");
    s.append(b);
    proof {
        reveal_strlit("/");
        assert(s@ =~= spec_join(a@, b@));
    }
    s
}

impl Settings {
    /// Makes a settings value rooted at the given path.
    pub fn new(path: String) -> (r: Self)
        ensures
            r.path == path,
    {
        Settings { path }
    }

    /// The directory of the course with the given code.
    pub fn course_dir(&self, code: &str) -> (r: String)
        ensures
            r@ == spec_join(self.path@, code@),
    {
        path_join(self.path.as_str(), code)
    }

    /// The private data directory inside a course's directory.
    pub fn course_unii_dir(&self, code: &str) -> (r: String)
        ensures
            r@ == spec_join(spec_join(self.path@, code@), ".unii"@),
    {
        let dir = self.course_dir(code);
        path_join(dir.as_str(), ".unii")
    }

    /// The directory of a course's private templates.
    pub fn course_template_dir(&self, code: &str) -> (r: String)
        ensures
            r@ == spec_join(spec_join(spec_join(self.path@, code@), ".unii"@), "templates"@),
    {
        let dir = self.course_unii_dir(code);
        path_join(dir.as_str(), "templates")
    }

    /// The path of a course's persisted record.
    pub fn course_yaml_path(&self, code: &str) -> (r: String)
        ensures
            r@ == spec_join(spec_join(spec_join(self.path@, code@), ".unii"@), "course.yml"@),
    {
        let dir = self.course_unii_dir(code);
        path_join(dir.as_str(), "course.yml")
    }

    /// The directory of the global templates.
    pub fn template_dir(&self) -> (r: String)
        ensures
            r@ == spec_join(spec_join(self.path@, ".unii"@), "templates"@),
    {
        let dir = path_join(self.path.as_str(), ".unii");
        path_join(dir.as_str(), "templates")
    }

    /// The directory templates are read from for an optional course source
    /// scope: the course's private template directory when a source is given,
    /// the global template directory otherwise.
    pub open spec fn spec_scope_template_dir(&self, source: Option<Course>) -> Seq<char> {
        match source {
            Option::Some(course) => {
                spec_join(spec_join(spec_join(self.path@, course.code@), ".unii"@), "templates"@)
            },
            Option::None => spec_join(spec_join(self.path@, ".unii"@), "templates"@),
        }
    }

    /// The path of the definition file for the named template, looked up
    /// either globally or in a course's private template store.
    pub fn template_path(&self, source: Option<&Course>, name: &str) -> (r: String)
        ensures
            ({
                let dir = match source {
                    Option::Some(course) => self.spec_scope_template_dir(Option::Some(*course)),
                    Option::None => self.spec_scope_template_dir(Option::None),
                };
                r@ == spec_join(dir, name@) + ".yml"@
            }),
    {
        let dir = match source {
            Option::Some(course) => course.template_dir(self),
            Option::None => self.template_dir(),
        };
        let mut p = path_join(dir.as_str(), name);
        p.append(".yml");
        p
    }
}

} // verus!
