//! What is decided about a request before and after its handler runs.

pub mod auth;
pub mod logging;
