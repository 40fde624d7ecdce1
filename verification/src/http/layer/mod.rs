//! Layers for HTTP services.

pub mod dns;
