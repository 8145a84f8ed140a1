//! A verified core for a JSON/form REST client with a client-credentials
//! authentication layer on top.
//!
//! The library owns everything that can be stated and proved: building the
//! outgoing request (URL joining, header assembly, JSON and form bodies),
//! classifying the response status, and decoding the token payload.  The
//! network transport itself is I/O and lives with the caller: it sends the
//! [`api::HttpRequest`] this library builds and hands the status and body
//! back to the response functions.

pub mod api;
pub mod encoding;
pub mod headers;
pub mod models;
pub mod repository;
pub mod service;
pub mod token_json;
pub mod url;
