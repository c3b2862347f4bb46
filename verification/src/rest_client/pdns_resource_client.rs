//! The engine that carries out one exchange with the server: it says which
//! request to send and what the server's answer amounts to.

use crate::pdns::error::Error;
use crate::pdns::zone::{NewZone, NewZoneView, RrsetView, Rrsets};
use crate::rest_client::client_request_builder::{
    ClientRequestBuilder,
    ClientRequestBuilderView,
    HttpRequest,
    HttpRequestView,
    HttpVerb,
};
use crate::rest_client::errors::{RestClientError, RestClientErrorKind};
use vstd::prelude::*;
use vstd::string::*;

verus! {

/// Tells whether a status means that the request was carried out.
pub open spec fn is_success_status(status_code: u16) -> bool {
    status_code == 200 || status_code == 201 || status_code == 204
}

/// Tells whether a status is one of the failures that the server explains in
/// the body of its response.
pub open spec fn is_known_error_status(status_code: u16) -> bool {
    status_code == 400 || status_code == 404 || status_code == 422 || status_code == 500
}

/// Tells whether a status means that the request was carried out.
pub fn is_success(status_code: u16) -> (success: bool)
    ensures
        success == is_success_status(status_code),
{
    status_code == 200 || status_code == 201 || status_code == 204
}

/// Tells whether a status is one of the failures that the server explains in
/// the body of its response.
pub fn is_known_error(status_code: u16) -> (known: bool)
    ensures
        known == is_known_error_status(status_code),
{
    status_code == 400 || status_code == 404 || status_code == 422 || status_code == 500
}

/// What is to be done once a request was sent and the status of the response
/// is known, or once sending failed.
#[derive(Debug, PartialEq, Eq)]
pub enum Disposition {
    /// The call succeeded: its result is the body, decoded as the payload.
    DecodePayload,
    /// The call succeeded and has no payload.
    Complete,
    /// The server explains the failure: the body is to be decoded as its
    /// error report.
    DecodeServerError { status_code: u16 },
    /// The call failed; the body is not looked at.
    Fail { error: RestClientError },
}

/// The disposition of an exchange. `sent` is the status of the response, or
/// what the transport said when it could not send the request.
pub open spec fn spec_classify(verb: HttpVerb, sent: Result<u16, String>) -> Disposition {
    match sent {
        Err(message) => Disposition::Fail {
            error: RestClientError {
                kind: RestClientErrorKind::ReqwestRuntimeError { reqwest_error: message },
            },
        },
        Ok(status_code) => if is_success_status(status_code) {
            if verb == HttpVerb::Get || verb == HttpVerb::Post {
                Disposition::DecodePayload
            } else {
                Disposition::Complete
            }
        } else if is_known_error_status(status_code) {
            Disposition::DecodeServerError { status_code }
        } else {
            Disposition::Fail {
                error: RestClientError { kind: RestClientErrorKind::ClientError { status_code } },
            }
        },
    }
}

/// The result of a call whose body was decoded as the payload, or could not
/// be.
pub open spec fn spec_payload_result<O>(decoded: Result<O, String>) -> Result<O, RestClientError> {
    match decoded {
        Ok(payload) => Ok(payload),
        Err(message) => Err(
            RestClientError {
                kind: RestClientErrorKind::ReqwestRuntimeError { reqwest_error: message },
            },
        ),
    }
}

/// The failure of a call whose body was decoded as the server's error report,
/// or could not be.
pub open spec fn spec_server_error(status_code: u16, decoded: Result<Error, String>)
    -> RestClientError {
    match decoded {
        Ok(server_error) => RestClientError {
            kind: RestClientErrorKind::PowerDnsServerError { status_code, server_error },
        },
        Err(message) => RestClientError {
            kind: RestClientErrorKind::ReqwestRuntimeError { reqwest_error: message },
        },
    }
}

/// What a request carries in its body.
#[derive(Clone, Debug)]
pub enum RequestBody {
    Empty,
    NewZone(NewZone),
    Rrsets(Rrsets),
}

/// What a [`RequestBody`] holds.
pub enum RequestBodyView {
    Empty,
    NewZone(NewZoneView),
    Rrsets(Seq<RrsetView>),
}

impl View for RequestBody {
    type V = RequestBodyView;

    open spec fn view(&self) -> RequestBodyView {
        match self {
            RequestBody::Empty => RequestBodyView::Empty,
            RequestBody::NewZone(zone) => RequestBodyView::NewZone(zone@),
            RequestBody::Rrsets(rrsets) => RequestBodyView::Rrsets(rrsets@),
        }
    }
}

/// One exchange that is about to begin: the request and its body.
#[derive(Clone, Debug)]
pub struct Operation {
    pub request: HttpRequest,
    pub body: RequestBody,
}

/// What an [`Operation`] holds.
pub struct OperationView {
    pub request: HttpRequestView,
    pub body: RequestBodyView,
}

impl View for Operation {
    type V = OperationView;

    open spec fn view(&self) -> OperationView {
        OperationView { request: self.request@, body: self.body@ }
    }
}

/// The exchange that the engine begins for a resource. Every resource lies
/// under `api/v1/`.
pub open spec fn spec_operation(
    server: ClientRequestBuilderView,
    verb: HttpVerb,
    resource_path: Seq<char>,
    body: RequestBodyView,
) -> OperationView {
    OperationView { request: server.request(verb, "api/v1/"@ + resource_path), body }
}

/// The engine, bound to one server.
pub struct PowerDnsRestClient {
    request_builder: ClientRequestBuilder,
}

impl View for PowerDnsRestClient {
    type V = ClientRequestBuilderView;

    closed spec fn view(&self) -> ClientRequestBuilderView {
        self.request_builder@
    }
}

impl PowerDnsRestClient {
    /// An engine that builds its requests with `request_builder`.
    pub fn new(request_builder: ClientRequestBuilder) -> (client: PowerDnsRestClient)
        ensures
            client@ == request_builder@,
    {
        PowerDnsRestClient { request_builder }
    }

    fn operation(&self, verb: HttpVerb, resource_path: &str, body: RequestBody) -> (operation:
        Operation)
        ensures
            operation@ == spec_operation(self@, verb, resource_path@, body@),
    {
        let mut request_path = String::from_str("api/v1/");
        request_path.append(resource_path);
        Operation { request: self.request_builder.build(verb, request_path.as_str()), body }
    }

    /// Begins a GET exchange for the resource.
    pub fn handle_get_request(&self, resource_path: &str) -> (operation: Operation)
        ensures
            operation@ == spec_operation(
                self@,
                HttpVerb::Get,
                resource_path@,
                RequestBodyView::Empty,
            ),
    {
        self.operation(HttpVerb::Get, resource_path, RequestBody::Empty)
    }

    /// Begins a POST exchange for the resource, with the given body.
    pub fn handle_post_request(&self, resource_path: &str, body: RequestBody) -> (operation:
        Operation)
        ensures
            operation@ == spec_operation(self@, HttpVerb::Post, resource_path@, body@),
    {
        self.operation(HttpVerb::Post, resource_path, body)
    }

    /// Begins a DELETE exchange for the resource.
    pub fn handle_delete_request(&self, resource_path: &str) -> (operation: Operation)
        ensures
            operation@ == spec_operation(
                self@,
                HttpVerb::Delete,
                resource_path@,
                RequestBodyView::Empty,
            ),
    {
        self.operation(HttpVerb::Delete, resource_path, RequestBody::Empty)
    }

    /// Begins a PATCH exchange for the resource, with the given body.
    pub fn handle_patch_request(&self, resource_path: &str, body: RequestBody) -> (operation:
        Operation)
        ensures
            operation@ == spec_operation(self@, HttpVerb::Patch, resource_path@, body@),
    {
        self.operation(HttpVerb::Patch, resource_path, body)
    }

    /// Classifies the outcome of sending a request. `sent` is the status of
    /// the response, or what the transport said when sending failed.
    pub fn classify(verb: HttpVerb, sent: Result<u16, String>) -> (disposition: Disposition)
        ensures
            disposition == spec_classify(verb, sent),
    {
        match sent {
            Err(message) => Disposition::Fail {
                error: RestClientError::on_reqwest_runtime_error(message),
            },
            Ok(status_code) => {
                if is_success(status_code) {
                    match verb {
                        HttpVerb::Get | HttpVerb::Post => Disposition::DecodePayload,
                        HttpVerb::Delete | HttpVerb::Patch => Disposition::Complete,
                    }
                } else if is_known_error(status_code) {
                    Disposition::DecodeServerError { status_code }
                } else {
                    Disposition::Fail { error: RestClientError::on_client_error(status_code) }
                }
            },
        }
    }

    /// The result of a successful call, once its body was decoded as the
    /// payload or decoding failed with a message.
    pub fn payload_result<O>(decoded: Result<O, String>) -> (result: Result<O, RestClientError>)
        ensures
            result == spec_payload_result(decoded),
    {
        match decoded {
            Ok(payload) => Ok(payload),
            Err(message) => Err(RestClientError::on_reqwest_runtime_error(message)),
        }
    }

    /// The failure of a call that the server explains, once its body was
    /// decoded as the error report or decoding failed with a message.
    pub fn server_error(status_code: u16, decoded: Result<Error, String>) -> (error:
        RestClientError)
        ensures
            error == spec_server_error(status_code, decoded),
    {
        match decoded {
            Ok(server_error) => RestClientError::on_powerdns_server_error(
                status_code,
                server_error,
            ),
            Err(message) => RestClientError::on_reqwest_runtime_error(message),
        }
    }
}

/// A request together with what became of it.
pub struct PnsServerResponse<I, O> {
    request: I,
    response: Result<O, RestClientError>,
}

impl<I, O> PnsServerResponse<I, O> {
    /// The request that was made.
    pub closed spec fn spec_request(&self) -> I {
        self.request
    }

    /// What became of the request.
    pub closed spec fn spec_response(&self) -> Result<O, RestClientError> {
        self.response
    }

    /// Pairs a request with its outcome.
    pub fn new(request: I, response: Result<O, RestClientError>) -> (pair: PnsServerResponse<I, O>)
        ensures
            pair.spec_request() == request,
            pair.spec_response() == response,
    {
        PnsServerResponse { request, response }
    }

    /// The request that was made.
    pub fn request(&self) -> (request: &I)
        ensures
            *request == self.spec_request(),
    {
        &self.request
    }

    /// What became of the request.
    pub fn response(&self) -> (response: &Result<O, RestClientError>)
        ensures
            *response == self.spec_response(),
    {
        &self.response
    }
}

} // verus!
