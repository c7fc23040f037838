//! Applies a named theme to desktop applications by rewriting lines of their
//! configuration files with per-application pattern rules.

pub mod structs;
pub mod resolve;
pub mod rewrite;
pub mod apply;
pub mod laws;
pub mod select;
