//! The path-shallow API: every answer is an envelope of a status, an error and
//! a payload.

pub mod error;
pub mod models;
pub mod routes;
