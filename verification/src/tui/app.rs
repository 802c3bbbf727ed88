use vstd::prelude::*;

verus! {

/// How many log lines a worker's panel keeps.
pub const LOG_MAX: usize = 5;

/// How many result lines a worker's panel keeps.
pub const MESSAGES_MAX: usize = 20;

} // verus!
