//! The dispatch engine: from a request to the response that is owed to it.

pub mod handler;
