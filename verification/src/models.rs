//! The rows of the two tables and the operations on them.

pub mod redirect;
pub mod user;
