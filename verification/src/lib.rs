//! Derivation of compiler crates from the workspace metadata of a Scarb project.
//!
//! The library is a set of pure functions: the metadata document, the outcome of
//! the build tool's invocation and the state of the file system are arguments,
//! and what the caller has to do with the result (which files to track, how to
//! mark the cached value, what to log) is part of what is returned.

pub mod metadata;
pub mod paths;
pub mod project;
pub mod source_path;
pub mod diagnostics;
pub mod settings;
pub mod resolve;
pub mod fetch;
pub mod laws;
