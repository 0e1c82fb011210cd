//! Initialization of the sandbox.
//!
//! `path` loads the file for the sandbox and checks that it exists, that it
//! is a regular file, and that it is an executable.
pub mod path;
