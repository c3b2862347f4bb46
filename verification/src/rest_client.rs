//! Requests to the server, and what becomes of its responses.

pub mod client_request_builder;
pub mod errors;
pub mod pdns_resource_client;
pub mod server_resource_client;
pub mod zone_resource_client;
