//! Startup/shutdown supervisor for a desktop application with two
//! out-of-process dependents: a backend server and an optional embedded
//! graph-database engine.
//!
//! The supervisor decides, step by step, which external commands to issue
//! (create the data directory, launch the database, wait for it to settle,
//! launch the backend, kill what is still alive at window close) and tracks
//! the handle of each launched process in a registry with at-most-one-handle
//! slots.  All decisions are made here, as a verified state machine; the
//! surrounding shell performs the commands and feeds the outcomes back in.

pub mod laws;
pub mod paths;
pub mod platform;
pub mod process;
pub mod registry;
pub mod supervisor;

use vstd::prelude::*;

verus! {

} // verus!
