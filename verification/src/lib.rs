//! Library core of a command-line client for a transactional-email service.
//!
//! The library builds the authenticated HTTP requests that the client issues,
//! serializes request payloads to JSON, and decodes JSON response bodies into
//! typed records, with uniform error handling across all operations.  Sending
//! the requests over the network, argument parsing, and terminal output live
//! in the surrounding application; everything here is pure computation.

pub mod api;
pub mod commands;
pub mod config;
pub mod encode;
pub mod json;
pub mod parse;
pub mod roundtrip;
pub mod text;
