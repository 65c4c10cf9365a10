//! Unattended retrieval of a backup snapshot from a remote media-management
//! server.
//!
//! The library holds the two pieces with real engineering risk, both verified:
//! the backup-acquisition state machine (decide whether an existing manual
//! backup is usable, trigger creation otherwise, poll with a bounded timeout)
//! and safe archive extraction (turn an archive into filesystem actions while
//! refusing path-traversal and symlink escapes). Network and filesystem work
//! is performed by the surrounding program, which drives the state machines
//! here and executes the actions they return.

pub mod acquire;
pub mod api;
pub mod archive;
pub mod backup;
pub mod config;
pub mod errors;
pub mod extract;
pub mod run;
