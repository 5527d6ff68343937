//! What can go wrong while a request is served.

use crate::diagnostic::{Diagnostic, DiagnosticView, Level};
use vstd::prelude::*;
use vstd::string::*;

verus! {

/// A failure of one request. It ends that request and nothing else.
#[derive(Debug, Clone, PartialEq, Eq)]
pub enum Error {
    /// A file could not be read: its path, and what the file system said.
    FileIo { path: String, err: Option<String> },
    /// The project did not compile. The compiler's own report comes along.
    Compile { diagnostic: Diagnostic },
    /// The formatter refused a source text: the file's path, and why.
    Format { path: String, problem: String },
}

/// The body text of the report on an unreadable file.
pub open spec fn file_io_text(path: Seq<char>, err: Option<Seq<char>>) -> Seq<char> {
    let told = "An error occurred while trying to read this file:\n\n    "@ + path + "\n"@;
    match err {
        Some(err) => told + "\nThe error message from the file IO library was:\n\n    "@ + err
            + "\n"@,
        None => told,
    }
}

/// The body text of the report on a text that could not be formatted.
pub open spec fn format_text(path: Seq<char>, problem: Seq<char>) -> Seq<char> {
    "This file could not be formatted:\n\n    "@ + path + "\n\n"@ + problem
}

impl Error {
    /// What the one diagnostic of this error says. That of a failed
    /// compilation is the compiler's own report; the others point at no
    /// source.
    pub open spec fn diagnostic(self) -> DiagnosticView {
        match self {
            Error::FileIo { path, err } => DiagnosticView {
                title: "File IO failure"@,
                text: file_io_text(path@, crate::diagnostic::text_of(err)),
                level: Level::Error,
                location: None,
                hint: None,
            },
            Error::Compile { diagnostic } => diagnostic@,
            Error::Format { path, problem } => DiagnosticView {
                title: "Format failure"@,
                text: format_text(path@, problem@),
                level: Level::Error,
                location: None,
                hint: None,
            },
        }
    }

    /// Turns the error into its diagnostic.
    pub fn to_diagnostic(self) -> (diagnostic: Diagnostic)
        ensures
            diagnostic@ == self.diagnostic(),
    {
        match self {
            Error::FileIo { path, err } => {
                let mut text = String::from_str(
                    "An error occurred while trying to read this file:\n\n    ",
                );
                text.append(path.as_str());
                text.append("\n");
                match err {
                    Some(err) => {
                        text.append("\nThe error message from the file IO library was:\n\n    ");
                        text.append(err.as_str());
                        text.append("\n");
                    },
                    None => {},
                }
                Diagnostic {
                    title: String::from_str("File IO failure"),
                    text,
                    level: Level::Error,
                    location: None,
                    hint: None,
                }
            },
            Error::Compile { diagnostic } => diagnostic,
            Error::Format { path, problem } => {
                let mut text = String::from_str("This file could not be formatted:\n\n    ");
                text.append(path.as_str());
                text.append("\n\n");
                text.append(problem.as_str());
                Diagnostic {
                    title: String::from_str("Format failure"),
                    text,
                    level: Level::Error,
                    location: None,
                    hint: None,
                }
            },
        }
    }
}

} // verus!
