//! The API that manages redirects.

pub mod redirect;
