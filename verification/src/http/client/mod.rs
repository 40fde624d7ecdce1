//! The client side: connecting through an HTTP proxy.

pub mod proxy_error;
