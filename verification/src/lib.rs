//! Opening a file with the operating system's default application.
//!
//! The library checks the path, chooses the launcher of the host platform
//! and words the answer. The process itself is started by the caller.

pub mod command;
pub mod error;
pub mod laws;
pub mod opener;
pub mod platform;
