//! Meme hosting: the rules of the service, stated and proved.
//!
//! The crate holds the entities of the service, the table model that says what
//! each data-access operation returns, the statements sent to the relational
//! store, the requests sent to the blob gateway and to the chat bridge, and the
//! decisions of every endpoint. Nothing here performs I/O: an embedding program
//! performs the actions that these functions hand out and feeds the outcomes
//! back in.

pub mod address;
pub mod cdn;
pub mod codec;
pub mod error;
pub mod extract;
pub mod ipfs;
pub mod matrix;
pub mod models;
pub mod patterns;
pub mod service;
pub mod sql;
pub mod statements;
pub mod status;
pub mod tables;
pub mod text;
pub mod v1;
pub mod v2;
