//! The kinds of failure that the dashboard knows.

use vstd::prelude::*;
use vstd::string::*;

verus! {

/// What can go wrong while the dashboard runs.
#[derive(Clone, Copy, Debug, PartialEq, Eq, Structural)]
pub enum ErrorKind {
    /// The backend could not be reached, or the file could not be opened or read.
    SourceUnavailable,
    /// The payload is not a collection of entries in the expected shape.
    DecodeError,
    /// The navigation state was asked for its current board while it holds none.
    NoBoards,
    /// The terminal could not be drawn to or restored.
    RendererFailure,
}

impl ErrorKind {
    /// The text of the message for each kind.
    pub open spec fn spec_message(self) -> Seq<char> {
        match self {
            ErrorKind::SourceUnavailable => "data source unavailable"@,
            ErrorKind::DecodeError => "payload is not a well-formed collection"@,
            ErrorKind::NoBoards => "no boards to show"@,
            ErrorKind::RendererFailure => "terminal renderer failed"@,
        }
    }

    /// A short message for the user.
    pub fn message(&self) -> (text: String)
        ensures
            text@ == self.spec_message(),
    {
        match self {
            ErrorKind::SourceUnavailable => String::from_str("data source unavailable"),
            ErrorKind::DecodeError => String::from_str("payload is not a well-formed collection"),
            ErrorKind::NoBoards => String::from_str("no boards to show"),
            ErrorKind::RendererFailure => String::from_str("terminal renderer failed"),
        }
    }
}

} // verus!
