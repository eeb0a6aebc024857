//! Finds the video files of a directory tree, reads what an inspection tool
//! reports about each, and serves the bytes of a file in chunks.
//!
//! The library makes the decisions and leaves the work on files and processes
//! to its caller: `crawler` says which entries of a walk are videos and folds
//! what was observed of them into records, `prober` reads the tool's report,
//! `metadata` builds the record of one file, and `reader` plans the reads of a
//! file and assembles what they return. `json` and two functions of `text`
//! are the boundary to code that is taken on trust.

pub mod crawler;
pub mod json;
pub mod metadata;
pub mod prober;
pub mod reader;
pub mod text;
