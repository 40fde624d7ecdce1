//! Serving HTTP over one connection.

pub mod hyper_conn;
pub mod laws;
mod sealed;
