//! A verified core for a secure database bootstrap sequence: configuration
//! loading with defaults, mutual-TLS context construction with an explicit
//! material-strictness policy, an explicit hostname-verification policy, and
//! a connect-before-spawn connection lifecycle.

pub mod config;
pub mod connstring;
pub mod errors;
pub mod lifecycle;
pub mod tls;
