//! Persistence helpers for a local entropy cache: path handling for the
//! application's home directory and a uniform, text-only error type.

pub mod error;
pub mod path;
