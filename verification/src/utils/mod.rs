//! Small helpers shared by the other modules.

pub mod shared;
pub mod text;
pub mod username;
