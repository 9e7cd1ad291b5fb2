//! An in-memory movie catalogue: records are stored under identifiers
//! derived deterministically from the movie's name, and looked up by the
//! rendered identifier string.

pub mod error;
pub mod handlers;
pub mod id;
pub mod model;
pub mod store;
