//! Retrying a service as a policy decides.

pub mod engine;
pub mod laws;
pub mod policies;
pub mod policy;
