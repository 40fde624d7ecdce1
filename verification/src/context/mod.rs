//! The per-call context: shared state, a bag of facts, and a guard that
//! tells of shutdown.

pub mod context;
pub mod extensions;
pub mod guard;
