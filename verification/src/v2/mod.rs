//! The resource-nested API: every answer is the bare payload.

pub mod models;
pub mod routes;
