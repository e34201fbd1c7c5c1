//! A typed client for the Fauna query language: query expressions are built
//! as values, written in the database's JSON wire format, and the responses
//! are classified into typed results and typed errors.

pub mod client;
pub mod error;
pub mod expr;
pub mod json;
pub mod prelude;
pub mod query;
