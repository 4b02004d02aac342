//! Decision core of a concurrent directory scanner.
//!
//! The crate holds everything a scan decides: how one directory is walked
//! entry by entry, what is counted, what is reported as progress, how the
//! partial results of sub-directories are merged, and how the final result
//! is assembled. Reading the filesystem, waiting on the concurrency limiter
//! and drawing the progress display are left to the caller, which feeds the
//! outcome of each operation back as an event.

pub mod cli;
pub mod guarantees;
pub mod paths;
pub mod pattern;
pub mod progress;
pub mod scanner;
pub mod walk;
