//! The JSON-RPC 2.0 wire model: errors, requests and responses.

pub mod error;
pub mod request;
pub mod response;
