//! The error taxonomy of the countdown: every failure the program can
//! surface falls under one of four kinds, each carried with a descriptive
//! message; all of them lead to the same user-visible outcome, one message
//! and a non-zero exit.

use vstd::prelude::*;

verus! {

/// The kind of a failure: an unusable target path, a filesystem failure
/// opening or creating files or directories, an I/O failure during a write
/// cycle, or the operator declining directory creation.
#[derive(Clone, Copy, PartialEq, Eq, Structural, Debug)]
pub enum ErrorKind {
    InvalidPath,
    Filesystem,
    Io,
    UserAborted,
}

/// A failure: its kind and a descriptive message.
#[derive(Debug)]
pub struct CountdownError {
    pub kind: ErrorKind,
    pub message: String,
}

impl ErrorKind {
    /// A short fixed label for the kind.
    pub fn label(&self) -> (s: &'static str)
        ensures
            *self is InvalidPath ==> s@ == "invalid path"@,
            *self is Filesystem ==> s@ == "filesystem error"@,
            *self is Io ==> s@ == "i/o error"@,
            *self is UserAborted ==> s@ == "aborted by user"@,
    {
        match self {
            ErrorKind::InvalidPath => "invalid path",
            ErrorKind::Filesystem => "filesystem error",
            ErrorKind::Io => "i/o error",
            ErrorKind::UserAborted => "aborted by user",
        }
    }
}

} // verus!
