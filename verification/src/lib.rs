//! A small SIP (RFC 3261) request parser and responder.

pub mod connection;
pub mod error;
pub mod grammar;
pub mod handler;
pub mod header;
pub mod header_map;
pub mod method;
pub mod number;
pub mod parser;
pub mod request;
pub mod response;
pub mod status;
pub mod text;
pub mod unicode;
