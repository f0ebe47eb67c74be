//! Path arithmetic, done by `std::path` on the text of a path.
//!
//! The library holds a path as its text. What `std` computes from a path is
//! not proved here: each wrapper gives `std`'s answer a name, and the
//! verified functions are stated over these names.

use vstd::prelude::*;
use vstd::string::StringExecFns;

verus! {

/// What `{:?}` writes for the path whose text is `path`: the text between
/// double quotes, with the characters that `std` escapes written as escapes.
pub uninterp spec fn path_debug_text(path: Seq<char>) -> Seq<char>;

/// The path without its final component, as `std::path::Path::parent` gives
/// it, or `None` where `std` finds no parent.
pub uninterp spec fn path_parent(path: Seq<char>) -> Option<Seq<char>>;

/// The final component of the path, as `std::path::Path::file_name` gives
/// it, or `None` where `std` finds no file name.
pub uninterp spec fn path_file_name(path: Seq<char>) -> Option<Seq<char>>;

/// `name` adjoined to `directory`, as `std::path::Path::join` does it.
pub uninterp spec fn path_join(directory: Seq<char>, name: Seq<char>) -> Seq<char>;

/// The text of an optional string.
pub open spec fn option_text(text: Option<String>) -> Option<Seq<char>> {
    match text {
        Some(t) => Some(t@),
        None => None,
    }
}

/// Formats a path for a message, as `std::path::Path`'s `Debug` does.
///
/// Trusted: the contract only gives `std`'s output its name,
/// [`path_debug_text`]; nothing is claimed about which characters are escaped.
#[verifier::external_body]
pub(crate) fn path_debug(path: &str) -> (text: String)
    ensures
        text@ == path_debug_text(path@),
{
    format!("{:?}", std::path::Path::new(path))
}

/// `std::path::Path::parent`, on the text of a path.
///
/// Trusted: the contract only gives `std`'s answer its name, [`path_parent`].
#[verifier::external_body]
pub(crate) fn parent(path: &str) -> (directory: Option<String>)
    ensures
        option_text(directory) == path_parent(path@),
{
    match std::path::Path::new(path).parent() {
        Some(p) => Some(p.to_string_lossy().into_owned()),
        None => None,
    }
}

/// `std::path::Path::file_name`, on the text of a path.
///
/// Trusted: the contract only gives `std`'s answer its name,
/// [`path_file_name`].
#[verifier::external_body]
pub(crate) fn file_name(path: &str) -> (name: Option<String>)
    ensures
        option_text(name) == path_file_name(path@),
{
    match std::path::Path::new(path).file_name() {
        Some(n) => Some(n.to_string_lossy().into_owned()),
        None => None,
    }
}

/// `std::path::Path::join`, on the text of two paths.
///
/// Trusted: the contract only gives `std`'s answer its name, [`path_join`].
#[verifier::external_body]
pub(crate) fn join(directory: &str, name: &str) -> (path: String)
    ensures
        path@ == path_join(directory@, name@),
{
    std::path::Path::new(directory).join(name).to_string_lossy().into_owned()
}

/// The name of the output file, given the final component of the template's
/// path if it has one.
pub open spec fn output_name_text(file_name: Option<Seq<char>>) -> Seq<char> {
    match file_name {
        Some(name) => name,
        None => "output"@,
    }
}

/// The name of the output file: that of the template, or `output` where the
/// template's path has no final component.
pub fn output_name(file_name: Option<String>) -> (name: String)
    ensures
        name@ == output_name_text(option_text(file_name)),
{
    match file_name {
        Some(name) => name,
        None => String::from_str("output"),
    }
}

/// Where the rendered template goes: into `output_dir`, under the name of the
/// template file.
pub fn output_file_for(input_file: &str, output_dir: &str) -> (path: String)
    ensures
        path@ == path_join(output_dir@, output_name_text(path_file_name(input_file@))),
{
    let name = output_name(file_name(input_file));
    join(output_dir, name.as_str())
}

} // verus!
