//! The parts of an HTTP request that the middleware reads, and serving
//! HTTP over a connection.

pub mod client;
pub mod layer;
pub mod request;
pub mod request_context;
pub mod server;
