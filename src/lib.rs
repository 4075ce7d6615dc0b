//! Chainable error reporting for a C-compatible surface, a loader that keeps
//! plugin libraries mapped for the life of a context, and the parser of the
//! hexadecimal option file read at start-up.

pub mod error;
pub mod text;
pub mod options;
pub mod config;
pub mod boundary;
pub mod plugin;
