//! Building blocks for network proxies and servers: a per-call context with a
//! typed fact bag, retry decisions, connection driving under cooperative
//! shutdown, and credential checks.

pub mod context;
pub mod error;
pub mod http;
pub mod net;
pub mod service;
pub mod transport;
pub mod utils;
