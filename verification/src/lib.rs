//! A JSON-RPC 2.0 client for the Mopidy music server, without the I/O.
//!
//! The library builds the HTTP request of a call and reads the server's reply;
//! sending the one and fetching the other is left to the program that owns the
//! transport.

pub mod decimal;
pub mod envelope;
pub mod error;
pub mod json;
pub mod mopidy;
