//! The ways in which a call to the server can fail.

use crate::pdns::error::{Error, ErrorView};
use crate::text::{decimal, decimal_digits};
use reqwest::StatusCode;
use vstd::prelude::*;
use vstd::string::*;

verus! {

/// What went wrong.
#[derive(Debug, PartialEq, Eq)]
pub enum RestClientErrorKind {
    /// A failure of the tool itself, with an explanation where there is one.
    UnspecifiedError { message: Option<String> },
    /// The exchange between a workflow and its call broke down.
    TokioRuntimeError { tokio_error: String },
    /// The request could not be sent, or the response could not be read.
    ReqwestRuntimeError { reqwest_error: String },
    /// The server answered with a status that the tool does not know.
    ClientError { status_code: u16 },
    /// The server refused the request and said why.
    PowerDnsServerError { status_code: u16, server_error: Error },
}

/// A failed call.
#[derive(Debug, PartialEq, Eq)]
pub struct RestClientError {
    pub kind: RestClientErrorKind,
}

/// What a [`RestClientError`] holds.
pub enum RestClientErrorView {
    UnspecifiedError { message: Option<Seq<char>> },
    TokioRuntimeError { tokio_error: Seq<char> },
    ReqwestRuntimeError { reqwest_error: Seq<char> },
    ClientError { status_code: u16 },
    PowerDnsServerError { status_code: u16, server_error: ErrorView },
}

impl View for RestClientErrorKind {
    type V = RestClientErrorView;

    open spec fn view(&self) -> RestClientErrorView {
        match self {
            RestClientErrorKind::UnspecifiedError { message } =>
                RestClientErrorView::UnspecifiedError { message: message.deep_view() },
            RestClientErrorKind::TokioRuntimeError { tokio_error } =>
                RestClientErrorView::TokioRuntimeError { tokio_error: tokio_error@ },
            RestClientErrorKind::ReqwestRuntimeError { reqwest_error } =>
                RestClientErrorView::ReqwestRuntimeError { reqwest_error: reqwest_error@ },
            RestClientErrorKind::ClientError { status_code } => RestClientErrorView::ClientError {
                status_code: *status_code,
            },
            RestClientErrorKind::PowerDnsServerError { status_code, server_error } =>
                RestClientErrorView::PowerDnsServerError {
                    status_code: *status_code,
                    server_error: server_error@,
                },
        }
    }
}

impl View for RestClientError {
    type V = RestClientErrorView;

    open spec fn view(&self) -> RestClientErrorView {
        self.kind@
    }
}

/// What `http` shows for the status code `code`: the number, a space and the
/// reason phrase. There is none for a number that is no status code.
pub uninterp spec fn status_line(code: u16) -> Option<Seq<char>>;

/// Turns the number into a status code with `reqwest::StatusCode::from_u16`
/// and writes it with its `Display`. The contract claims that the text is a
/// function of the number, named [`status_line`], and that there is one
/// exactly for the numbers from 100 to 999, which `from_u16` accepts.
#[verifier::external_body]
fn status_text(code: u16) -> (text: Option<String>)
    ensures
        text.deep_view() == status_line(code),
        text is Some <==> 100 <= code < 1000,
{
    match StatusCode::from_u16(code) {
        Ok(status) => Some(status.to_string()),
        Err(_) => None,
    }
}

/// How a status is shown: as `http` shows it, or as the bare number where it
/// is no status code.
pub open spec fn status_display(code: u16) -> Seq<char> {
    match status_line(code) {
        Some(line) => line,
        None => decimal_digits(code as nat),
    }
}

impl Clone for RestClientErrorKind {
    fn clone(&self) -> (copy: Self)
        ensures
            copy@ == self@,
    {
        match self {
            RestClientErrorKind::UnspecifiedError { message } => {
                RestClientErrorKind::UnspecifiedError {
                    message: match message {
                        Some(text) => Some(text.clone()),
                        None => None,
                    },
                }
            },
            RestClientErrorKind::TokioRuntimeError { tokio_error } => {
                RestClientErrorKind::TokioRuntimeError { tokio_error: tokio_error.clone() }
            },
            RestClientErrorKind::ReqwestRuntimeError { reqwest_error } => {
                RestClientErrorKind::ReqwestRuntimeError { reqwest_error: reqwest_error.clone() }
            },
            RestClientErrorKind::ClientError { status_code } => {
                RestClientErrorKind::ClientError { status_code: *status_code }
            },
            RestClientErrorKind::PowerDnsServerError { status_code, server_error } => {
                RestClientErrorKind::PowerDnsServerError {
                    status_code: *status_code,
                    server_error: server_error.clone(),
                }
            },
        }
    }
}

impl Clone for RestClientError {
    fn clone(&self) -> (copy: Self)
        ensures
            copy@ == self@,
    {
        RestClientError { kind: self.kind.clone() }
    }
}

impl RestClientErrorKind {
    pub fn on_unspecified_error() -> (kind: RestClientErrorKind)
        ensures
            kind == (RestClientErrorKind::UnspecifiedError { message: None }),
    {
        RestClientErrorKind::UnspecifiedError { message: None }
    }

    pub fn on_unspecified_error_message(message: &String) -> (kind: RestClientErrorKind)
        ensures
            kind == (RestClientErrorKind::UnspecifiedError { message: Some(*message) }),
    {
        RestClientErrorKind::UnspecifiedError { message: Some(message.clone()) }
    }

    pub fn on_tokio_runtime_error(tokio_error: String) -> (kind: RestClientErrorKind)
        ensures
            kind == (RestClientErrorKind::TokioRuntimeError { tokio_error }),
    {
        RestClientErrorKind::TokioRuntimeError { tokio_error }
    }

    pub fn on_reqwest_runtime_error(reqwest_error: String) -> (kind: RestClientErrorKind)
        ensures
            kind == (RestClientErrorKind::ReqwestRuntimeError { reqwest_error }),
    {
        RestClientErrorKind::ReqwestRuntimeError { reqwest_error }
    }

    pub fn on_client_error(status_code: u16) -> (kind: RestClientErrorKind)
        ensures
            kind == (RestClientErrorKind::ClientError { status_code }),
    {
        RestClientErrorKind::ClientError { status_code }
    }

    pub fn on_powerdns_server_error(status_code: u16, server_error: Error) -> (kind:
        RestClientErrorKind)
        ensures
            kind == (RestClientErrorKind::PowerDnsServerError { status_code, server_error }),
    {
        RestClientErrorKind::PowerDnsServerError { status_code, server_error }
    }
}

impl RestClientError {
    /// A failure of the tool itself, without explanation.
    pub fn on_unspecified_error() -> (error: RestClientError)
        ensures
            error.kind == (RestClientErrorKind::UnspecifiedError { message: None }),
    {
        RestClientError { kind: RestClientErrorKind::on_unspecified_error() }
    }

    /// A failure of the tool itself, with an explanation.
    pub fn on_unspecified_error_message(message: &String) -> (error: RestClientError)
        ensures
            error.kind == (RestClientErrorKind::UnspecifiedError { message: Some(*message) }),
    {
        RestClientError { kind: RestClientErrorKind::on_unspecified_error_message(message) }
    }

    /// The exchange between a workflow and its call broke down.
    pub fn on_tokio_runtime_error(tokio_error: String) -> (error: RestClientError)
        ensures
            error.kind == (RestClientErrorKind::TokioRuntimeError { tokio_error }),
    {
        RestClientError { kind: RestClientErrorKind::on_tokio_runtime_error(tokio_error) }
    }

    /// The request could not be sent, or the response could not be read.
    pub fn on_reqwest_runtime_error(reqwest_error: String) -> (error: RestClientError)
        ensures
            error.kind == (RestClientErrorKind::ReqwestRuntimeError { reqwest_error }),
    {
        RestClientError { kind: RestClientErrorKind::on_reqwest_runtime_error(reqwest_error) }
    }

    /// The server answered with a status that the tool does not know.
    pub fn on_client_error(status_code: u16) -> (error: RestClientError)
        ensures
            error.kind == (RestClientErrorKind::ClientError { status_code }),
    {
        RestClientError { kind: RestClientErrorKind::on_client_error(status_code) }
    }

    /// The server refused the request and said why.
    pub fn on_powerdns_server_error(status_code: u16, server_error: Error) -> (error:
        RestClientError)
        ensures
            error.kind == (RestClientErrorKind::PowerDnsServerError { status_code, server_error }),
    {
        RestClientError {
            kind: RestClientErrorKind::on_powerdns_server_error(status_code, server_error),
        }
    }

    /// A copy of what went wrong.
    pub fn kind(&self) -> (kind: RestClientErrorKind)
        ensures
            kind@ == self@,
    {
        self.kind.clone()
    }

    /// Tells whether the server said that the thing asked for does not exist.
    pub open spec fn is_not_found(self) -> bool {
        self.kind matches RestClientErrorKind::PowerDnsServerError { status_code, .. }
            && status_code == 404
    }

    /// Tells whether the server said that the thing asked for does not exist:
    /// a server error with status 404.
    pub fn not_found(&self) -> (found: bool)
        ensures
            found == self.is_not_found(),
    {
        match &self.kind {
            RestClientErrorKind::PowerDnsServerError { status_code, .. } => *status_code == 404,
            _ => false,
        }
    }

    /// The failure as it is shown to the user.
    pub open spec fn spec_description(self) -> Seq<char> {
        match self.kind {
            RestClientErrorKind::UnspecifiedError { message } => "Unspecified error: "@ + (
            match message {
                Some(text) => text@,
                None => "None"@,
            }),
            RestClientErrorKind::TokioRuntimeError { tokio_error } => "Tokio runtime error: "@
                + tokio_error@,
            RestClientErrorKind::ReqwestRuntimeError { reqwest_error } => "Reqwest runtime error: "@
                + reqwest_error@,
            RestClientErrorKind::ClientError { status_code } => "Unexpected client status code "@
                + status_display(status_code),
            RestClientErrorKind::PowerDnsServerError { status_code, server_error } =>
                "PowerDNS server error: status code: "@ + status_display(status_code)
                    + ", server error "@ + server_error.spec_description(),
        }
    }

    /// The failure as it is shown to the user.
    pub fn description(&self) -> (text: String)
        ensures
            text@ == self.spec_description(),
    {
        match &self.kind {
            RestClientErrorKind::UnspecifiedError { message } => {
                let mut text = String::from_str("Unspecified error: ");
                match message {
                    Some(explanation) => text.append(explanation.as_str()),
                    None => text.append("None"),
                }
                text
            },
            RestClientErrorKind::TokioRuntimeError { tokio_error } => {
                let mut text = String::from_str("Tokio runtime error: ");
                text.append(tokio_error.as_str());
                text
            },
            RestClientErrorKind::ReqwestRuntimeError { reqwest_error } => {
                let mut text = String::from_str("Reqwest runtime error: ");
                text.append(reqwest_error.as_str());
                text
            },
            RestClientErrorKind::ClientError { status_code } => {
                let mut text = String::from_str("Unexpected client status code ");
                text.append(show_status(*status_code).as_str());
                text
            },
            RestClientErrorKind::PowerDnsServerError { status_code, server_error } => {
                let mut text = String::from_str("PowerDNS server error: status code: ");
                text.append(show_status(*status_code).as_str());
                text.append(", server error ");
                text.append(server_error.description().as_str());
                text
            },
        }
    }
}

/// Writes a status as it is shown to the user.
pub fn show_status(code: u16) -> (text: String)
    ensures
        text@ == status_display(code),
{
    match status_text(code) {
        Some(line) => line,
        None => decimal(code as u64),
    }
}

} // verus!
