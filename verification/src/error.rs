//! The errors that building the database can end in.

use vstd::prelude::*;

verus! {

/// What went wrong, by the step that failed.
#[derive(Clone, Copy, PartialEq, Eq, Debug, Structural)]
pub enum ErrorKind {
    /// A file could not be read.
    Io,
    /// The build configuration is malformed.
    Config,
    /// A template could not be rendered.
    Template,
    /// The database refused a statement.
    Database,
    /// The CSV data is malformed.
    Format,
}

/// An error with the text that explains it.
#[derive(Clone, Debug)]
pub struct BuildError {
    pub kind: ErrorKind,
    pub message: String,
}

/// The label that `BuildError::describe` puts before the message.
pub open spec fn kind_label(kind: ErrorKind) -> Seq<char> {
    match kind {
        ErrorKind::Io => "I/O error"@,
        ErrorKind::Config => "configuration error"@,
        ErrorKind::Template => "template error"@,
        ErrorKind::Database => "database error"@,
        ErrorKind::Format => "format error"@,
    }
}

impl BuildError {
    pub fn new(kind: ErrorKind, message: String) -> (e: BuildError)
        ensures
            e.kind == kind,
            e.message@ == message@,
    {
        BuildError { kind, message }
    }

    /// The label of the kind, a colon and a space, then the message.
    pub fn describe(&self) -> (text: String)
        ensures
            text@ == kind_label(self.kind) + ": "@ + self.message@,
    {
        let label: &str = match self.kind {
            ErrorKind::Io => "I/O error",
            ErrorKind::Config => "configuration error",
            ErrorKind::Template => "template error",
            ErrorKind::Database => "database error",
            ErrorKind::Format => "format error",
        };
        let mut text = String::from_str(label);
        text.append(": ");
        text.append(self.message.as_str());
        text
    }
}

} // verus!
