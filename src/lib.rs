//! Sandboxed execution engine of a programming-judge worker: the decisions
//! the engine takes around a child process, the output comparator and the
//! verdict aggregation, with their contracts.
use vstd::prelude::*;

pub mod cgroups;
pub mod compare;
pub mod judge;
pub mod languages;
pub mod run_command;
pub mod server;
pub mod text;
pub mod timer;
pub mod utils;

verus! {

/// Prepares the worker before it takes jobs. The jail is populated ahead of
/// time, so there is nothing to do.
pub fn init() {
}

} // verus!
