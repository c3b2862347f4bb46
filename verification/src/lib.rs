//! Administration of DNS zones and resource records through the REST
//! control plane of an authoritative DNS server.
//!
//! The library holds the decisions of the tool: how a request is built, how a
//! response is classified, and in which order the calls of a command follow
//! each other. Sending requests and decoding bodies is left to the caller.

pub mod app_config;
pub mod clock;
pub mod commands;
pub mod pdns;
pub mod rest_client;
pub mod text;
