//! File bug reports as issues in a remote tracker, either by calling its
//! GraphQL API directly with an API key, or through a relay that holds the
//! key on the caller's behalf.
//!
//! The library builds each outbound request (headers and JSON body) and
//! classifies what came back into a URL or a typed error. Sending the request
//! is left to the caller, who hands the transport's outcome back.

pub mod client;
pub mod format;
pub mod http;
pub mod json;

pub use client::{direct, proxy, DirectClient, ProxyClient};
pub use http::Error;
