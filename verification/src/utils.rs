//! Text helpers, configuration, session tokens and the Discord profile.

pub mod discord;
pub mod env;
pub mod jwt;
pub mod strings;
