//! Verified core of a small rsync front-end: configuration overlay
//! resolution, transfer command construction, and outcome reporting.
//! All I/O (argument parsing, config file loading, process spawning)
//! lives outside this crate; the logic here is pure and fully specified.

pub mod command;
pub mod outcome;
pub mod resolve;
