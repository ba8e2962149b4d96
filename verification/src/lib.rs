//! Identifiers for a paste-sharing service: short base62 tokens that name a
//! stored paste, both on disk and in the URL handed back to the client.
//!
//! The crate holds what the service decides. Serving requests and reading and
//! writing the files is left to the program around it.

pub mod alphabet;
pub mod paste_id;
mod random;
pub mod routes;
