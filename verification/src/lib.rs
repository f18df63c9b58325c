//! A transport-agnostic JSON-RPC 2.0 request/response engine, and the domain that it
//! serves.
//!
//! - [`json`] holds JSON values and their model.
//! - [`rpc`] is the wire model: error codes and errors, requests and the grammar that
//!   reads and writes them, responses.
//! - [`server`] is the dispatch engine: it answers method calls through a handler, keeps
//!   silent on notifications, answers invalid calls with an error, and puts the
//!   responses to a batch in the order of its calls.
//! - [`service`] is the domain: the requests that the engine decodes for it, and the
//!   rules by which codes are made, mailed and verified.
//! - [`text`] writes numbers in decimal.
//!
//! Every type that holds strings or lists has a model, its view, and the contracts speak
//! of the models.

pub mod json;
pub mod rpc;
pub mod server;
pub mod service;
pub mod text;
