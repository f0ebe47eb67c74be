//! The closed set of failures, and the sentence each one is reported with.

use vstd::prelude::*;
use vstd::string::StringExecFns;

use crate::paths::{path_debug, path_debug_text};

verus! {

/// Which of the seven failures an error is.
#[derive(Clone, Copy, Debug, PartialEq, Eq, Structural)]
pub enum ErrorKind {
    FileNotFound,
    ReadFailed,
    RenderError,
    MissingKey,
    InvalidTemplate,
    CannotOpenFileForWriting,
    CannotCreateOutputDirectories,
}

/// A failure of the pipeline, with the path, key or reason that caused it.
#[derive(Clone, Debug, PartialEq, Eq)]
pub enum ProgramError {
    /// An input file could not be opened; carries its path.
    FileNotFound(String),
    /// An input file was opened but does not hold the expected structure;
    /// carries its path.
    ReadFailed(String),
    /// Rendering failed for a reason other than a missing key; carries the
    /// description.
    RenderError(String),
    /// A placeholder names a key that the substitutions lack; carries the
    /// description, which names the key.
    MissingKey(String),
    /// The template is malformed; carries the reason.
    InvalidTemplate(String),
    /// The destination file could not be opened or written; carries its path.
    CannotOpenFileForWriting(String),
    /// The destination's directory could not be created; carries the
    /// directory.
    CannotCreateOutputDirectories(String),
}

/// The mathematical content of a [`ProgramError`].
pub struct ErrorView {
    pub kind: ErrorKind,
    pub detail: Seq<char>,
}

impl View for ProgramError {
    type V = ErrorView;

    open spec fn view(&self) -> ErrorView {
        match self {
            ProgramError::FileNotFound(p) => ErrorView { kind: ErrorKind::FileNotFound, detail: p@ },
            ProgramError::ReadFailed(p) => ErrorView { kind: ErrorKind::ReadFailed, detail: p@ },
            ProgramError::RenderError(d) => ErrorView { kind: ErrorKind::RenderError, detail: d@ },
            ProgramError::MissingKey(d) => ErrorView { kind: ErrorKind::MissingKey, detail: d@ },
            ProgramError::InvalidTemplate(r) => ErrorView {
                kind: ErrorKind::InvalidTemplate,
                detail: r@,
            },
            ProgramError::CannotOpenFileForWriting(p) => ErrorView {
                kind: ErrorKind::CannotOpenFileForWriting,
                detail: p@,
            },
            ProgramError::CannotCreateOutputDirectories(p) => ErrorView {
                kind: ErrorKind::CannotCreateOutputDirectories,
                detail: p@,
            },
        }
    }
}

impl ErrorKind {
    /// Whether an error of this kind carries a path, which its sentence
    /// shows between quotes.
    pub open spec fn carries_path(self) -> bool {
        match self {
            ErrorKind::FileNotFound => true,
            ErrorKind::ReadFailed => true,
            ErrorKind::CannotOpenFileForWriting => true,
            ErrorKind::CannotCreateOutputDirectories => true,
            ErrorKind::RenderError => false,
            ErrorKind::MissingKey => false,
            ErrorKind::InvalidTemplate => false,
        }
    }
}

/// The sentence for an error of this kind, around what it shows of its
/// detail: the quoted path, the description or the reason.
pub open spec fn sentence_text(kind: ErrorKind, shown: Seq<char>) -> Seq<char> {
    match kind {
        ErrorKind::FileNotFound => "Couldn't find the file "@ + shown + "."@,
        ErrorKind::ReadFailed => "Couldn't deserialize "@ + shown + " into the expected format."@,
        ErrorKind::RenderError => "Template Render error: "@ + shown + "."@,
        ErrorKind::MissingKey => shown,
        ErrorKind::InvalidTemplate =>
            "The provided template file is invalid and cannot be parsed correctly: "@ + shown,
        ErrorKind::CannotOpenFileForWriting => "Couldn't open output file "@ + shown + "."@,
        ErrorKind::CannotCreateOutputDirectories => "Failed to create directory "@ + shown,
    }
}

impl ErrorView {
    /// The sentence shown to the operator.
    pub open spec fn message(self) -> Seq<char> {
        if self.kind.carries_path() {
            sentence_text(self.kind, path_debug_text(self.detail))
        } else {
            sentence_text(self.kind, self.detail)
        }
    }
}

/// The sentence for an error of this kind, around what it shows of its
/// detail: the quoted path, the description or the reason.
pub fn sentence(kind: ErrorKind, shown: &str) -> (text: String)
    ensures
        text@ == sentence_text(kind, shown@),
{
    match kind {
        ErrorKind::FileNotFound => {
            String::from_str("Couldn't find the file ").concat(shown).concat(".")
        },
        ErrorKind::ReadFailed => {
            String::from_str("Couldn't deserialize ").concat(shown).concat(
                " into the expected format.",
            )
        },
        ErrorKind::RenderError => {
            String::from_str("Template Render error: ").concat(shown).concat(".")
        },
        ErrorKind::MissingKey => String::from_str(shown),
        ErrorKind::InvalidTemplate => {
            String::from_str(
                "The provided template file is invalid and cannot be parsed correctly: ",
            ).concat(shown)
        },
        ErrorKind::CannotOpenFileForWriting => {
            String::from_str("Couldn't open output file ").concat(shown).concat(".")
        },
        ErrorKind::CannotCreateOutputDirectories => {
            String::from_str("Failed to create directory ").concat(shown)
        },
    }
}

impl ProgramError {
    /// Which failure this is.
    pub fn kind(&self) -> (kind: ErrorKind)
        ensures
            kind == self@.kind,
    {
        match self {
            ProgramError::FileNotFound(_) => ErrorKind::FileNotFound,
            ProgramError::ReadFailed(_) => ErrorKind::ReadFailed,
            ProgramError::RenderError(_) => ErrorKind::RenderError,
            ProgramError::MissingKey(_) => ErrorKind::MissingKey,
            ProgramError::InvalidTemplate(_) => ErrorKind::InvalidTemplate,
            ProgramError::CannotOpenFileForWriting(_) => ErrorKind::CannotOpenFileForWriting,
            ProgramError::CannotCreateOutputDirectories(_) => ErrorKind::CannotCreateOutputDirectories,
        }
    }

    /// The path, key description or reason that the error carries.
    pub fn detail(&self) -> (detail: &str)
        ensures
            detail@ == self@.detail,
    {
        match self {
            ProgramError::FileNotFound(s) => s.as_str(),
            ProgramError::ReadFailed(s) => s.as_str(),
            ProgramError::RenderError(s) => s.as_str(),
            ProgramError::MissingKey(s) => s.as_str(),
            ProgramError::InvalidTemplate(s) => s.as_str(),
            ProgramError::CannotOpenFileForWriting(s) => s.as_str(),
            ProgramError::CannotCreateOutputDirectories(s) => s.as_str(),
        }
    }

    /// The sentence shown to the operator. Paths are written as `std` writes
    /// a path for debugging, between double quotes.
    pub fn message(&self) -> (text: String)
        ensures
            text@ == self@.message(),
    {
        match self {
            ProgramError::FileNotFound(path) => {
                sentence(ErrorKind::FileNotFound, path_debug(path.as_str()).as_str())
            },
            ProgramError::ReadFailed(path) => {
                sentence(ErrorKind::ReadFailed, path_debug(path.as_str()).as_str())
            },
            ProgramError::RenderError(description) => {
                sentence(ErrorKind::RenderError, description.as_str())
            },
            ProgramError::MissingKey(description) => {
                sentence(ErrorKind::MissingKey, description.as_str())
            },
            ProgramError::InvalidTemplate(reason) => {
                sentence(ErrorKind::InvalidTemplate, reason.as_str())
            },
            ProgramError::CannotOpenFileForWriting(path) => {
                sentence(ErrorKind::CannotOpenFileForWriting, path_debug(path.as_str()).as_str())
            },
            ProgramError::CannotCreateOutputDirectories(path) => {
                sentence(
                    ErrorKind::CannotCreateOutputDirectories,
                    path_debug(path.as_str()).as_str(),
                )
            },
        }
    }
}

} // verus!
