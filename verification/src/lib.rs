//! Verified core of a small web service template: the uniform response
//! envelope, error mapping, login and token checks, the authorization step of
//! the middleware, the error-unifying rule, the request counter, the daemon
//! start/stop decisions and the command-line launch plan.

pub mod cli;
pub mod daemon;
pub mod error;
pub mod gateway;
pub mod sidecar;
pub mod text;
pub mod utils;
