//! Network-level vocabulary: addresses, protocols and IP modes.

pub mod address;
pub mod forwarded;
pub mod mode;
pub mod protocol;
pub mod user;
