//! The process runner that spawns the CLI through tokio. Spawning, reading
//! the pipes and killing are the application's part; the library holds the
//! runner value that the application's process traits are implemented for.

use vstd::prelude::*;

verus! {

/// Real implementation using tokio::process
#[derive(Debug, Clone, Copy, PartialEq, Eq, Structural)]
pub struct TokioProcessRunner;

impl TokioProcessRunner {
    pub fn new() -> (r: Self)
        ensures
            r == TokioProcessRunner,
    {
        TokioProcessRunner
    }
}

impl Default for TokioProcessRunner {
    fn default() -> (r: Self)
        ensures
            r == TokioProcessRunner,
    {
        TokioProcessRunner::new()
    }
}

} // verus!
