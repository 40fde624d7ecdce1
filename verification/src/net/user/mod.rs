//! Users and the credentials that they present.

pub mod auth;
pub mod credentials;
