//! Queries that write to the database.

pub mod create_index;
