//! Library core of a cross-platform package builder: it turns a resolved
//! file manifest into a binary package payload (Debian packages and the
//! sibling formats), expands dynamic tokens in file-name templates, renders
//! the control record, and plans which (format, architecture) cells a build
//! run covers.
//!
//! All filesystem and process I/O lives outside this crate; the functions
//! here work on plain values (byte vectors, strings, entry lists) so that
//! their behaviour can be stated and checked precisely.

pub mod archive;
pub mod compress;
pub mod config;
pub mod control;
pub mod deb;
pub mod error;
pub mod expand;
pub mod fileset;
pub mod hash;
pub mod orchestrator;
pub mod platform;
pub mod text;
pub mod utils;
