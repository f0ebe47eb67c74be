//! Renders a text template against named string substitutions and plans how
//! the result reaches its destination file.
//!
//! A template is literal text with placeholders such as `{{key}}`; the
//! [`template`] module says exactly which sources are templates. The
//! library never touches the filesystem. It renders, classifies every
//! failure into a [`ProgramError`], and tells its caller, one [`Step`] at a
//! time, which directory to create and which file to write.

pub mod engine;
pub mod error;
pub mod paths;
pub mod render;
pub mod template;
pub mod text;
pub mod writer;

pub use error::{sentence, ErrorKind, ErrorView, ProgramError};
pub use paths::{output_file_for, output_name};
pub use render::{
    classify_render_failure, render_result_from, render_template, Configuration, EngineOutcome,
    Escaping, RenderResult, TemplateSource,
};
pub use template::{find_flaw, is_plain, Flaw};
pub use writer::{first_step, render, write_template_file, Step};
