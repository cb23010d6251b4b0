//! The authorization and request-logging middleware.

pub mod auth;
pub mod log;
