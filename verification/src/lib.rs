//! A small library for collecting audio files out of a directory tree.
//!
//! The scanner walks a source tree, skips hidden entries and entries that
//! already sit under the destination directory, classifies the remaining
//! regular files by attempting to parse embedded audio metadata, and plans
//! one copy operation per recognised file. The executor then carries each
//! planned operation out, never overwriting an existing destination file,
//! and records a terminal status on every operation.

pub mod execute;
mod io;
pub mod paths;
pub mod plan;
