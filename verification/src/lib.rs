//! A scanner for potentially unused top-level names in Python source
//! trees: each file is parsed into a concrete syntax tree, every
//! top-level function or class definition and every identifier
//! occurrence is recorded, and the names that are defined but never
//! referenced anywhere in the scanned corpus are reported.

pub mod analyzer;
pub mod laws;
pub mod parse;
pub mod tree;
