//! Developer preflight checks: layered configuration, check-result
//! reporting and the decision logic of the built-in checks.

pub mod config;
pub mod emit;
pub mod handlers;
pub mod json;
pub mod text;
