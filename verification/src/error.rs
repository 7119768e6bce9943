use vstd::prelude::*;

verus! {

/// An error that can occur in this crate.
///
/// Each variant carries the data its human-readable message needs;
/// [`Error::message`] states the exact text in its contract.
#[derive(Debug, PartialEq, Eq)]
pub enum Error {
    /// A course with this code already exists.
    CourseAlreadyExists(String),
    /// No course with this code exists.
    CourseDoesNotExist(String),
    /// A template with this name already exists.
    TemplateAlreadyExists(String),
    /// No template definition was found for an optional source scope and a name.
    TemplateDoesNotExist(Option<String>, String),
    /// A supplied context key is not in the template's declared parameter list.
    TemplateContextParameterDoesNotExist(String),
    /// The template's command rendered to an empty string.
    TemplateCommandIsEmpty,
    /// The rendered command exited with a non-zero status; carries the
    /// rendered command line and the captured standard-error text.
    TemplateCommandFailed(String, String),
    /// The rendered directory name already exists under the course target.
    RenderAlreadyExists(String),
    /// The persisted template body could not be read as a template definition.
    Yaml(String),
    /// The template engine rejected or failed to render a template source.
    Render(String),
}

impl Error {
    /// The human-readable message for this error.
    pub fn message(&self) -> (r: String)
        ensures
            r@ == self.spec_message(),
    {
        proof {
            reveal_strlit("course with code already exists: ");
            reveal_strlit("course with code does not exist: ");
            reveal_strlit("template already exists: ");
            reveal_strlit("template does not exist: ");
            reveal_strlit(":");
            reveal_strlit("template context parameter does not exist: ");
            reveal_strlit("template command is empty");
            reveal_strlit("template command failed: ");
            reveal_strlit("\n");
            reveal_strlit("template directory already exists: ");
            reveal_strlit("yaml error: ");
            reveal_strlit("template render error: ");
        }
        match self {
            Error::CourseAlreadyExists(code) => {
                let mut m = "course with code already exists: ".to_owned();
                m.append(code.as_str());
                m
            },
            Error::CourseDoesNotExist(code) => {
                let mut m = "course with code does not exist: ".to_owned();
                m.append(code.as_str());
                m
            },
            Error::TemplateAlreadyExists(name) => {
                let mut m = "template already exists: ".to_owned();
                m.append(name.as_str());
                m
            },
            Error::TemplateDoesNotExist(source, name) => {
                let mut m = "template does not exist: ".to_owned();
                match source {
                    Option::Some(s) => {
                        m.append(s.as_str());
                        m.append(":");
                    },
                    Option::None => {},
                }
                m.append(name.as_str());
                m
            },
            Error::TemplateContextParameterDoesNotExist(key) => {
                let mut m = "template context parameter does not exist: ".to_owned();
                m.append(key.as_str());
                m
            },
            Error::TemplateCommandIsEmpty => "template command is empty".to_owned(),
            Error::TemplateCommandFailed(command, stderr) => {
                let mut m = "template command failed: ".to_owned();
                m.append(command.as_str());
                m.append("\n");
                m.append(stderr.as_str());
                m
            },
            Error::RenderAlreadyExists(name) => {
                let mut m = "template directory already exists: ".to_owned();
                m.append(name.as_str());
                m
            },
            Error::Yaml(msg) => {
                let mut m = "yaml error: ".to_owned();
                m.append(msg.as_str());
                m
            },
            Error::Render(msg) => {
                let mut m = "template render error: ".to_owned();
                m.append(msg.as_str());
                m
            },
        }
    }

    /// The message text, as a function of the variant and its data.
    pub open spec fn spec_message(&self) -> Seq<char> {
        match self {
            Error::CourseAlreadyExists(code) => "course with code already exists: "@ + code@,
            Error::CourseDoesNotExist(code) => "course with code does not exist: "@ + code@,
            Error::TemplateAlreadyExists(name) => "template already exists: "@ + name@,
            Error::TemplateDoesNotExist(source, name) => match source {
                Option::Some(s) => "template does not exist: "@ + s@ + ":"@ + name@,
                Option::None => "template does not exist: "@ + name@,
            },
            Error::TemplateContextParameterDoesNotExist(key) => {
                "template context parameter does not exist: "@ + key@
            },
            Error::TemplateCommandIsEmpty => "template command is empty"@,
            Error::TemplateCommandFailed(command, stderr) => {
                "template command failed: "@ + command@ + "\n"@ + stderr@
            },
            Error::RenderAlreadyExists(name) => "template directory already exists: "@ + name@,
            Error::Yaml(msg) => "yaml error: "@ + msg@,
            Error::Render(msg) => "template render error: "@ + msg@,
        }
    }
}

} // verus!
