//! A transport-agnostic JSON-RPC 2.0 client core.
//!
//! The crate builds protocol-conformant requests, turns them into the message
//! that goes out over HTTP, and turns what came back into a typed response or
//! a typed error. The network itself stays outside: a caller sends the
//! [`clients::http::Outbound`] message and reports the
//! [`clients::http::Outcome`].

pub mod client;
pub mod clients;
pub mod json;
pub mod objects;
pub mod prelude;
