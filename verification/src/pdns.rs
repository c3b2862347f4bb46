//! The objects of the server's REST interface.

pub mod error;
pub mod server;
pub mod struct_type;
pub mod zone;
