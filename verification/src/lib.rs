//! A URL shortener: short keys that redirect to target URLs, with visit
//! counts, managed by users who sign in through Discord.
//!
//! The crate holds the rules of the service as verified functions on plain
//! values. Everything that touches a socket, a file or the environment is
//! left to the program that embeds it: that program performs each action
//! the library asks for and hands back what happened.

pub mod database;
pub mod error;
pub mod handlers;
pub mod middleware;
pub mod models;
pub mod response;
pub mod routes;
pub mod utils;
