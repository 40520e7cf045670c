//! The result log's records and the rules for writing and listing them. The
//! store itself is the caller's.

pub mod database;
pub mod models;
