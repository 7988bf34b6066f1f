//! Locates the neocmakelsp language server for a CMake-aware editor, and
//! installs it from its latest published release where it is missing.
//!
//! The host's services (search path, release lookup, downloads, the file
//! system) are driven from outside: [`resolver::NeoCMakeExt`] decides each
//! request from the answer to the previous one.

pub mod command;
pub mod platform;
pub mod release;
pub mod resolver;
