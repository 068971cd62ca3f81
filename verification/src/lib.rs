//! Incremental regeneration of text artifacts from (template, data) pairs.
//!
//! The crate decides which outputs are stale, what has to be done for every
//! job of a batch, and how the result of each job is reported. It touches
//! none of the files of a job itself: callers hand in what they read from
//! the file system and carry out the requests the library makes.

pub mod error;
pub mod helper;
pub mod job;
pub mod metadata;
pub mod pool;
pub mod probe;
pub mod report;
pub mod schedule;
pub mod sink;
mod text;
