//! Finds the entries of a directory tree whose path or name matches a pattern.
//!
//! The crate holds the rules of the search: how the options follow from the
//! command line, which entries a walk leaves out, what text of an entry is
//! held against the pattern, and how a matching path is written. Walking the
//! file system and writing to the terminal are left to the caller, who feeds
//! the entries of a depth-first walk to a [`scan::Scanner`] one by one.

pub mod cli;
pub mod config;
pub mod entry;
pub mod laws;
pub mod pattern;
pub mod printer;
pub mod scan;
