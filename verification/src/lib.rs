//! A verified core for a small system-facts reporter.
//!
//! The crate resolves a configuration document with strict all-or-nothing
//! fallback semantics and renders an ordered, colorized report from an
//! immutable snapshot of host facts. All parsing and formatting decisions
//! live here and are verified; reading files, querying the host and printing
//! belong to the surrounding binary.

pub mod conf;
pub mod numfmt;
pub mod paint;
pub mod parse;
pub mod snapshot;
pub mod render;
