//! The decision logic of a client that asks a local file-listing service for
//! the names of the files in a list and links each of them from a target
//! directory into a source directory.
//!
//! The library performs no input or output. It says which request comes next
//! and what follows from each reply; a driver performs the requests.

pub mod config;
pub mod decimal;
pub mod error;
pub mod laws;
pub mod model;
pub mod path;
pub mod session;
pub mod url;
