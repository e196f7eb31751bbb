//! The error type of the client: a message and, for failed HTTP exchanges,
//! the status code that the server answered with.

use vstd::prelude::*;

verus! {

/// An error of the client.
#[derive(Debug)]
pub struct Error {
    /// What went wrong, as shown to the user.
    pub message: String,
    /// The HTTP status code of the response that caused the error, if any.
    pub status: Option<u16>,
}

impl Error {
    /// An error with the given message and no status code.
    pub fn new(message: &str) -> (e: Error)
        ensures
            e.message@ == message@,
            e.status is None,
    {
        Error { message: message.to_string(), status: None }
    }

    /// An error caused by a response with the given status code.
    pub fn with_status(status: u16, message: String) -> (e: Error)
        ensures
            e.message@ == message@,
            e.status == Some(status),
    {
        Error { message, status: Some(status) }
    }

    /// Whether the error was caused by a response with status `code`.
    pub fn is_status(&self, code: u16) -> (r: bool)
        ensures
            r == (self.status == Some(code)),
    {
        match self.status {
            Some(s) => s == code,
            None => false,
        }
    }

    /// The message of the error.
    pub fn to_string(&self) -> (s: String)
        ensures
            s@ == self.message@,
    {
        self.message.clone()
    }
}

} // verus!
