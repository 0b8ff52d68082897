//! Request and response shapes of the search endpoint. The transport layer
//! (JSON parsing, HTTP) lives with the surrounding program; the core only
//! carries the plain values.

pub mod requests;
pub mod responses;
