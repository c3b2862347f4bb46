//! What the user asks for on the command line.

pub mod cmd_line_parser;
pub mod errors;
