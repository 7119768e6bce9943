use vstd::prelude::*;

mod course;
mod doc;
mod engine;
mod error;
mod file_tree;
mod filters;
mod parse;
mod render;
mod settings;
mod template;

pub use course::Course;
pub use doc::{doc_of_yaml_text, tree_of_doc, yaml_text_of, Doc};
pub use error::Error;
pub use file_tree::FileTree;
pub use filters::{apply_case, filter_call, CaseKind};
pub use parse::{parse_context, parse_course_template};
pub use render::{
    validate_command, RenderCommandReady, RenderDirChecked, RenderFilesReady, RenderStarted,
    RenderedFile,
};
pub use settings::{path_join, spec_join, Settings};
pub use template::{template_file_stem, Template, TemplateView};

verus! {

} // verus!
