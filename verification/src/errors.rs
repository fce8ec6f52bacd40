//! What can go wrong for one recipe, and for one file of it.

use vstd::prelude::*;
use vstd::string::*;

verus! {

/// A failure that ends the run of one recipe; the other recipes still run.
#[derive(Clone, Copy, Debug, PartialEq, Eq, Structural)]
pub enum RecipeError {
    /// The source folder is missing or is no directory.
    SourceNotDirectory,
    /// The destination folder is missing or is no directory.
    TargetNotDirectory,
    /// The stored last-run date is no calendar date.
    InvalidLastRun,
}

/// A failure on a single file; the other files of the recipe are still
/// attempted. Each variant carries the cause as text.
#[derive(Clone, Debug, PartialEq, Eq)]
pub enum FileError {
    /// The creation date could not be read.
    CreationDate(String),
    /// The modification date could not be read.
    ModificationDate(String),
    /// A subfolder template could not be rendered; the text is the template.
    Template(String),
    /// The destination folder could not be created.
    CreateFolder(String),
    /// The file could not be moved.
    Move(String),
    /// The file could not be copied.
    Copy(String),
}

/// The text of a file-scoped error, for the recipe called `name`.
pub open spec fn file_error_text(error: FileError, name: Seq<char>) -> Seq<char> {
    match error {
        FileError::CreationDate(cause) => name + " - Error getting creation date: "@ + cause@,
        FileError::ModificationDate(cause) => name + " - Error getting last modification date: "@
            + cause@,
        FileError::Template(template) => name + " - Error rendering subfolder template: "@
            + template@,
        FileError::CreateFolder(cause) => cause@,
        FileError::Move(cause) => name + " - Error moving file: "@ + cause@,
        FileError::Copy(cause) => name + " - Error copying file: "@ + cause@,
    }
}

fn labelled(name: &str, label: &str, detail: &str) -> (r: String)
    ensures
        r@ == name@ + label@ + detail@,
{
    String::from_str(name).concat(label).concat(detail)
}

impl FileError {
    /// The message shown for this error under the recipe called `name`.
    pub fn message(&self, name: &str) -> (r: String)
        ensures
            r@ == file_error_text(*self, name@),
    {
        match self {
            FileError::CreationDate(cause) => labelled(
                name,
                " - Error getting creation date: ",
                cause.as_str(),
            ),
            FileError::ModificationDate(cause) => labelled(
                name,
                " - Error getting last modification date: ",
                cause.as_str(),
            ),
            FileError::Template(template) => labelled(
                name,
                " - Error rendering subfolder template: ",
                template.as_str(),
            ),
            FileError::CreateFolder(cause) => cause.clone(),
            FileError::Move(cause) => labelled(name, " - Error moving file: ", cause.as_str()),
            FileError::Copy(cause) => labelled(name, " - Error copying file: ", cause.as_str()),
        }
    }
}

} // verus!
