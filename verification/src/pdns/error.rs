//! The body that the server sends along with an error status.

use crate::text::{copy_strings, join, joined};
use vstd::prelude::*;
use vstd::string::*;

verus! {

/// The server's own account of why a request failed.
#[derive(Debug, PartialEq, Eq)]
pub struct Error {
    pub error: String,
    pub errors: Option<Vec<String>>,
}

/// What an [`Error`] holds.
pub struct ErrorView {
    pub error: Seq<char>,
    pub errors: Option<Seq<Seq<char>>>,
}

impl View for Error {
    type V = ErrorView;

    open spec fn view(&self) -> ErrorView {
        ErrorView { error: self.error@, errors: self.errors.deep_view() }
    }
}

impl Clone for Error {
    fn clone(&self) -> (copy: Self)
        ensures
            copy@ == self@,
    {
        Error { error: self.error.clone(), errors: self.errors() }
    }
}

impl Error {
    /// An error with a summary and, where the server gave them, its details.
    pub fn new(error: String, errors: Option<Vec<String>>) -> (made: Error)
        ensures
            made.error == error,
            made.errors == errors,
    {
        Error { error, errors }
    }

    /// The summary.
    pub fn error(&self) -> (error: String)
        ensures
            error == self.error,
    {
        self.error.clone()
    }

    /// The details, where the server gave any.
    pub fn errors(&self) -> (errors: Option<Vec<String>>)
        ensures
            errors.deep_view() == self.errors.deep_view(),
    {
        match &self.errors {
            Some(list) => Some(copy_strings(list)),
            None => None,
        }
    }

    /// The error as it is shown to a reader.
    pub open spec fn spec_description(self) -> Seq<char> {
        match self.errors {
            Some(errors) => "error: "@ + self.error@ + ", errors: "@ + joined(
                errors.deep_view(),
                ", "@,
            ),
            None => "error: "@ + self.error@,
        }
    }

    /// The error as it is shown to a reader.
    pub fn description(&self) -> (text: String)
        ensures
            text@ == self.spec_description(),
    {
        let mut text = String::from_str("error: ");
        text.append(self.error.as_str());
        match &self.errors {
            Some(errors) => {
                text.append(", errors: ");
                text.append(join(errors, ", ").as_str());
            },
            None => {},
        }
        text
    }
}

} // verus!
