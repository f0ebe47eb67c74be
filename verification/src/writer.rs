//! The way of the rendered text to its file, one step at a time.
//!
//! The library decides and the caller acts: a [`Step`] names what is to be
//! done to the filesystem next, and [`Step::after`] turns the outcome of
//! that action into the step that follows.

use vstd::prelude::*;

use crate::error::{ErrorKind, ErrorView, ProgramError};
use crate::paths::{option_text, parent, path_parent};
use crate::render::{
    is_render_of, render_template, Configuration, ConfigurationView, RenderResult, RenderView,
};

verus! {

/// What the caller is to do next, or how the run ended.
#[derive(Clone, Debug, PartialEq, Eq)]
pub enum Step {
    /// Create `directory`. Where `recursive` is set, every ancestor of it
    /// that is missing is created too, and a directory that exists already
    /// is no failure. Nothing is written yet.
    CreateDirectories { directory: String, rendered: RenderResult, recursive: bool },
    /// Open `path` for writing, creating the file if it is absent, and write
    /// all of `contents` to it. Where `truncate` is set, a file that is
    /// present is emptied first, so that nothing of what it held stays
    /// behind the new contents.
    WriteFile { path: String, contents: String, truncate: bool },
    /// The run succeeded: `path` holds the rendered text.
    Done { path: String },
    /// The run failed with `error`.
    Failed { error: ProgramError },
}

/// The mathematical content of a [`Step`].
pub enum StepView {
    CreateDirectories { directory: Seq<char>, rendered: RenderView, recursive: bool },
    WriteFile { path: Seq<char>, contents: Seq<char>, truncate: bool },
    Done { path: Seq<char> },
    Failed { error: ErrorView },
}

impl View for Step {
    type V = StepView;

    open spec fn view(&self) -> StepView {
        match self {
            Step::CreateDirectories { directory, rendered, recursive } => {
                StepView::CreateDirectories {
                    directory: directory@,
                    rendered: rendered@,
                    recursive: *recursive,
                }
            },
            Step::WriteFile { path, contents, truncate } => StepView::WriteFile {
                path: path@,
                contents: contents@,
                truncate: *truncate,
            },
            Step::Done { path } => StepView::Done { path: path@ },
            Step::Failed { error } => StepView::Failed { error: error@ },
        }
    }
}

/// The step that asks for the file: the whole rendered text at the
/// destination, in place of whatever the file held.
pub open spec fn write_step(rendered: RenderView) -> StepView {
    StepView::WriteFile { path: rendered.output_file, contents: rendered.result, truncate: true }
}

impl StepView {
    /// What the rendering gave, as the first step of a run tells it: the
    /// error of a failed run, or the text and the destination that the step
    /// carries. A finished run, which is no first step, carries no text.
    pub open spec fn rendering(self) -> Result<RenderView, ErrorView> {
        match self {
            StepView::CreateDirectories { directory, rendered, recursive } => Ok(rendered),
            StepView::WriteFile { path, contents, truncate } => Ok(
                RenderView { result: contents, output_file: path },
            ),
            StepView::Done { path } => Ok(RenderView { result: Seq::empty(), output_file: path }),
            StepView::Failed { error } => Err(error),
        }
    }

    /// Whether the run is over: nothing is left for the caller to do.
    pub open spec fn is_final(self) -> bool {
        self is Done || self is Failed
    }

    /// The step that follows this one once the caller has carried it out,
    /// with or without success.
    pub open spec fn after(self, succeeded: bool) -> StepView {
        match self {
            StepView::CreateDirectories { directory, rendered, recursive } => if succeeded {
                write_step(rendered)
            } else {
                StepView::Failed {
                    error: ErrorView {
                        kind: ErrorKind::CannotCreateOutputDirectories,
                        detail: directory,
                    },
                }
            },
            StepView::WriteFile { path, contents, truncate } => if succeeded {
                StepView::Done { path }
            } else {
                StepView::Failed {
                    error: ErrorView { kind: ErrorKind::CannotOpenFileForWriting, detail: path },
                }
            },
            StepView::Done { path } => self,
            StepView::Failed { error } => self,
        }
    }
}

/// The first step towards the file, given the parent of its path: the
/// directories are asked for where the path has a parent that is not empty,
/// and skipped where it has none or an empty one.
pub open spec fn first_write_step(rendered: RenderView, parent: Option<Seq<char>>) -> StepView {
    match parent {
        Some(directory) => if directory.len() > 0 {
            StepView::CreateDirectories { directory, rendered, recursive: true }
        } else {
            write_step(rendered)
        },
        None => write_step(rendered),
    }
}

/// The first step of a run, given what the rendering gave: a failed
/// rendering ends the run at once.
pub open spec fn first_run_step(rendering: Result<RenderView, ErrorView>) -> StepView {
    match rendering {
        Ok(rendered) => first_write_step(rendered, path_parent(rendered.output_file)),
        Err(error) => StepView::Failed { error },
    }
}

/// The step that asks for the file.
fn write_file(rendered: RenderResult) -> (step: Step)
    ensures
        step@ == write_step(rendered@),
{
    Step::WriteFile { path: rendered.output_file, contents: rendered.result, truncate: true }
}

impl Step {
    /// Whether the run is over.
    pub fn is_final(&self) -> (done: bool)
        ensures
            done == self@.is_final(),
    {
        match self {
            Step::Done { .. } => true,
            Step::Failed { .. } => true,
            _ => false,
        }
    }

    /// The step that follows this one, given whether the caller succeeded
    /// in carrying it out. A final step stays as it is.
    pub fn after(self, succeeded: bool) -> (next: Step)
        ensures
            next@ == self@.after(succeeded),
    {
        match self {
            Step::CreateDirectories { directory, rendered, recursive } => {
                if succeeded {
                    write_file(rendered)
                } else {
                    Step::Failed { error: ProgramError::CannotCreateOutputDirectories(directory) }
                }
            },
            Step::WriteFile { path, contents, truncate } => {
                if succeeded {
                    Step::Done { path }
                } else {
                    Step::Failed { error: ProgramError::CannotOpenFileForWriting(path) }
                }
            },
            Step::Done { path } => Step::Done { path },
            Step::Failed { error } => Step::Failed { error },
        }
    }
}

/// The first step towards the file, given the parent directory of its path.
pub fn first_step(rendered: RenderResult, parent: Option<String>) -> (step: Step)
    ensures
        step@ == first_write_step(rendered@, option_text(parent)),
{
    match parent {
        Some(directory) => {
            if directory.as_str().is_empty() {
                write_file(rendered)
            } else {
                Step::CreateDirectories { directory, rendered, recursive: true }
            }
        },
        None => write_file(rendered),
    }
}

/// Begins to write the rendered text: asks for the directories of the
/// destination, or for the file itself where there is no directory to make.
pub fn write_template_file(rendered: RenderResult) -> (step: Step)
    ensures
        step@ == first_write_step(rendered@, path_parent(rendered.output_file@)),
{
    let directory = parent(rendered.output_file.as_str());
    first_step(rendered, directory)
}

/// Renders the template and begins to write the result. A rendering that
/// fails ends the run before anything is asked of the filesystem; so does a
/// placeholder for a key without a value.
pub fn render(config: Configuration) -> (step: Step)
    ensures
        is_render_of(config@, step@.rendering()),
        step@ == first_run_step(step@.rendering()),
{
    match render_template(config) {
        Ok(rendered) => write_template_file(rendered),
        Err(error) => Step::Failed { error },
    }
}

/// A rendering that fails leaves the filesystem alone: the run is over at
/// its first step, which carries the rendering's error and asks for no
/// directory and no file.
pub proof fn failed_render_asks_nothing(rendering: Result<RenderView, ErrorView>)
    requires
        rendering is Err,
    ensures
        first_run_step(rendering) == (StepView::Failed { error: rendering->Err_0 }),
        first_run_step(rendering).is_final(),
{
}

/// Whatever directory a run asks for, it asks for with all its missing
/// ancestors, and takes one that is there already for made: a second run
/// into the same directory does not fail on the first one's work.
pub proof fn directory_is_asked_for_recursively(rendered: RenderView, parent: Option<Seq<char>>)
    ensures
        ({
            let first = first_write_step(rendered, parent);
            first is CreateDirectories ==> first->recursive
        }),
{
}

/// A run is over after two actions at most.
pub proof fn run_settles(
    rendered: RenderView,
    parent: Option<Seq<char>>,
    first: bool,
    second: bool,
)
    ensures
        first_write_step(rendered, parent).after(first).after(second).is_final(),
{
}

/// A run that is over stays as it is, whatever it is told.
pub proof fn final_step_stays(step: StepView, succeeded: bool)
    requires
        step.is_final(),
    ensures
        step.after(succeeded) == step,
{
}

/// Where every action succeeds, the file is asked for at the destination
/// with the whole rendered text, to be emptied first if it is there, and the
/// run ends with the destination.
pub proof fn successful_run_writes_destination(rendered: RenderView, parent: Option<Seq<char>>)
    ensures
        ({
            let first = first_write_step(rendered, parent);
            let file = if first is CreateDirectories {
                first.after(true)
            } else {
                first
            };
            &&& file == (StepView::WriteFile {
                path: rendered.output_file,
                contents: rendered.result,
                truncate: true,
            })
            &&& file.after(true) == (StepView::Done { path: rendered.output_file })
        }),
{
}

/// Whatever file a run asks for, it asks to have emptied first: no step
/// writes behind or into what the file held before.
pub proof fn written_file_is_truncated(
    rendered: RenderView,
    parent: Option<Seq<char>>,
    succeeded: bool,
)
    ensures
        ({
            let first = first_write_step(rendered, parent);
            let second = first.after(succeeded);
            &&& first is WriteFile ==> first->truncate
            &&& second is WriteFile ==> second->truncate
        }),
{
}

/// A failed action ends the run with the error that names it: the directory
/// that could not be created, before any file is asked for, or the
/// destination that could not be written.
pub proof fn failed_action_is_classified(rendered: RenderView, parent: Option<Seq<char>>)
    ensures
        ({
            let first = first_write_step(rendered, parent);
            match first {
                StepView::CreateDirectories { directory, rendered: _, recursive: _ } => {
                    &&& parent == Some(directory)
                    &&& first.after(false) == (StepView::Failed {
                        error: ErrorView {
                            kind: ErrorKind::CannotCreateOutputDirectories,
                            detail: directory,
                        },
                    })
                    &&& first.after(true).after(false) == (StepView::Failed {
                        error: ErrorView {
                            kind: ErrorKind::CannotOpenFileForWriting,
                            detail: rendered.output_file,
                        },
                    })
                },
                _ => first.after(false) == (StepView::Failed {
                    error: ErrorView {
                        kind: ErrorKind::CannotOpenFileForWriting,
                        detail: rendered.output_file,
                    },
                }),
            }
        }),
{
}

} // verus!
