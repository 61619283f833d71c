//! Fragments of the dashboard.

pub mod redirect_url_input;
