//! Errors surfaced by repository operations. Adapters report failures as
//! plain messages; the core never inspects an error beyond its text.

use vstd::prelude::*;

verus! {

#[derive(Debug, Clone, PartialEq, Eq)]
pub enum Error {
    /// The working directory is not inside a git repository (fatal at startup).
    NotAGitRepository,
    /// A git operation failed; the payload is the adapter's message.
    Git(String),
    /// An I/O failure, carried as its message.
    Io(String),
}

/// The display text of an error.
pub open spec fn error_text(e: Error) -> Seq<char> {
    match e {
        Error::NotAGitRepository => "Not a git repository"@,
        Error::Git(m) => m@,
        Error::Io(m) => m@,
    }
}

impl Error {
    /// The human-readable text of the error.
    pub fn message(&self) -> (r: String)
        ensures
            r@ == error_text(*self),
    {
        match self {
            Error::NotAGitRepository => "Not a git repository".to_owned(),
            Error::Git(m) => m.clone(),
            Error::Io(m) => m.clone(),
        }
    }
}

} // verus!
