//! The call that concerns the server itself.

use crate::pdns::server::Server;
use crate::rest_client::client_request_builder::{
    ClientRequestBuilder,
    ClientRequestBuilderView,
    HttpVerb,
};
use crate::rest_client::errors::RestClientError;
use crate::rest_client::pdns_resource_client::{
    spec_operation,
    Operation,
    PowerDnsRestClient,
    RequestBodyView,
};
use vstd::prelude::*;
use vstd::string::*;

verus! {

/// Asks the server what it is.
#[derive(Clone, Copy, Debug, PartialEq, Eq, Structural)]
pub struct QueryServerRequestEvent {}

impl QueryServerRequestEvent {
    pub fn new() -> (request: QueryServerRequestEvent)
        ensures
            request == (QueryServerRequestEvent {  }),
    {
        QueryServerRequestEvent {  }
    }
}

/// What the server said it is, or why that is not known.
pub struct GetServerResponseEvent {
    result: Result<Server, RestClientError>,
}

impl GetServerResponseEvent {
    /// What the event holds.
    pub closed spec fn spec_result(&self) -> Result<Server, RestClientError> {
        self.result
    }

    pub fn new(result: Result<Server, RestClientError>) -> (event: GetServerResponseEvent)
        ensures
            event.spec_result() == result,
    {
        GetServerResponseEvent { result }
    }

    /// A copy of what the event holds.
    pub fn result(&self) -> (result: Result<Server, RestClientError>)
        ensures
            match (result, self.spec_result()) {
                (Ok(server), Ok(held)) => server == held,
                (Err(error), Err(held)) => error@ == held@,
                _ => false,
            },
    {
        match &self.result {
            Ok(server) => Ok(server.clone()),
            Err(error) => Err(error.clone()),
        }
    }
}

/// Where the server's description of itself lies.
pub open spec fn server_path() -> Seq<char> {
    "servers/localhost"@
}

pub fn query_server_request_path(request: &QueryServerRequestEvent) -> (path: String)
    ensures
        path@ == server_path(),
{
    String::from_str("servers/localhost")
}

/// The call that concerns the server itself, bound to one server.
pub struct ServerResourceClient {
    pdns_resource_client: PowerDnsRestClient,
}

impl View for ServerResourceClient {
    type V = ClientRequestBuilderView;

    closed spec fn view(&self) -> ClientRequestBuilderView {
        self.pdns_resource_client@
    }
}

impl ServerResourceClient {
    /// The server call against the server at `base_uri`.
    pub fn new(base_uri: &String, api_key: &String) -> (client: ServerResourceClient)
        ensures
            client@ == (ClientRequestBuilderView { base_uri: base_uri@, api_key: api_key@ }),
    {
        ServerResourceClient {
            pdns_resource_client: PowerDnsRestClient::new(
                ClientRequestBuilder::new(base_uri, api_key),
            ),
        }
    }

    /// Begins the query for the server's description of itself.
    pub fn spawn_query(&self, request: &QueryServerRequestEvent) -> (operation: Operation)
        ensures
            operation@ == spec_operation(
                self@,
                HttpVerb::Get,
                server_path(),
                RequestBodyView::Empty,
            ),
    {
        self.pdns_resource_client.handle_get_request(query_server_request_path(request).as_str())
    }
}

} // verus!
