//! Services and the layers that wrap them.

pub mod layer;
pub mod retry;
