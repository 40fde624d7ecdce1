//! Streams of bytes.

pub mod count;
pub mod tracker;
