//! The ways in which an operation on the backlight fails.

use crate::decimal::ParseFailure;
use vstd::prelude::*;

verus! {

/// Why an operation failed.
#[derive(Debug, PartialEq, Eq)]
pub enum ErrorKind {
    /// `path` could not be opened, read or written; `message` is what the
    /// system said.
    IoError { path: String, message: String },
    /// The brightness file at `path` does not hold a level from 0 to 255.
    ParseError { path: String, reason: ParseFailure },
    /// An operation on a device was asked for, and no device was named.
    UsageError,
}

/// An [`ErrorKind`] with its texts as sequences of characters.
pub enum ErrorKindView {
    IoError { path: Seq<char>, message: Seq<char> },
    ParseError { path: Seq<char>, reason: ParseFailure },
    UsageError,
}

impl View for ErrorKind {
    type V = ErrorKindView;

    open spec fn view(&self) -> ErrorKindView {
        match *self {
            ErrorKind::IoError { path, message } => ErrorKindView::IoError {
                path: path@,
                message: message@,
            },
            ErrorKind::ParseError { path, reason } => ErrorKindView::ParseError {
                path: path@,
                reason,
            },
            ErrorKind::UsageError => ErrorKindView::UsageError,
        }
    }
}

impl ErrorKindView {
    /// The error in words: the path it came up at, where there is one, and
    /// what went wrong there.
    pub open spec fn described(self) -> Seq<char> {
        match self {
            ErrorKindView::IoError { path, message } => path + ": "@ + message,
            ErrorKindView::ParseError { path, reason } => path + ": "@ + reason.described(),
            ErrorKindView::UsageError => "No device specified"@,
        }
    }
}

impl ErrorKind {
    /// Says in words what the error is.
    pub fn describe(&self) -> (text: String)
        ensures
            text@ == self@.described(),
    {
        match self {
            ErrorKind::IoError { path, message } => {
                let mut text = path.clone();
                text.append(": ");
                text.append(message.as_str());
                text
            },
            ErrorKind::ParseError { path, reason } => {
                let mut text = path.clone();
                text.append(": ");
                text.append(reason.describe());
                text
            },
            ErrorKind::UsageError => "No device specified".to_owned(),
        }
    }
}

impl Clone for ErrorKind {
    fn clone(&self) -> (copy: ErrorKind)
        ensures
            copy == *self,
    {
        match self {
            ErrorKind::IoError { path, message } => ErrorKind::IoError {
                path: path.clone(),
                message: message.clone(),
            },
            ErrorKind::ParseError { path, reason } => ErrorKind::ParseError {
                path: path.clone(),
                reason: *reason,
            },
            ErrorKind::UsageError => ErrorKind::UsageError,
        }
    }
}

/// The exit status of an invocation that went well, or that only listed the
/// devices.
pub const EXIT_SUCCESS: u8 = 0;

/// The exit status of an invocation that failed.
pub const EXIT_FAILURE: u8 = 1;

/// The exit status of an invocation. `listing` says whether the devices were
/// to be listed, `failed` whether an error came up.
///
/// An error fails the invocation, except where the devices were to be listed:
/// there it is reported, and the invocation still succeeds.
pub open spec fn exit_status_of(listing: bool, failed: bool) -> u8 {
    if failed && !listing {
        EXIT_FAILURE
    } else {
        EXIT_SUCCESS
    }
}

/// Gives the exit status of an invocation.
pub fn exit_status(listing: bool, failed: bool) -> (code: u8)
    ensures
        code == exit_status_of(listing, failed),
{
    if failed && !listing {
        EXIT_FAILURE
    } else {
        EXIT_SUCCESS
    }
}

} // verus!
