//! What the service answers on each of its routes.

pub mod api;
pub mod auth;
pub mod components;
pub mod home;
pub mod redirect;
