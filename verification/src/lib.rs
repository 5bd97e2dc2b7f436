//! An in-memory, schemaless document store: JSON objects are appended to
//! named collections and read back by their position.

pub mod error;
pub mod handlers;
pub mod identifier;
pub mod model;
pub mod payload;
pub mod response;
pub mod state;
