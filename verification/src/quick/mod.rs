//! The quick command, `dev-purge [--check]`: a fixed list of patterns, a
//! scan of the working directory, and plain deletion.
pub mod config;
pub mod scan;
