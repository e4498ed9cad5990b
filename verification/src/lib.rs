//! A recursive, extension-filtered text search library.
//!
//! Given a keyword and a set of flags, it compiles a matcher, classifies the
//! lines of a file as qualifying or not (with optional inversion), and renders
//! the qualifying lines, counts, or filenames, with optional terminal
//! highlighting.  Walking the directory tree and reading files is left to the
//! caller; the library decides which entries qualify and what to print.

pub mod config;
pub mod pattern;
pub mod scan;
pub mod walk;
