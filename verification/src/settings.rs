use vstd::prelude::*;

verus! {

/// Process-wide diagnostic settings. Created by an explicit initialization
/// call; read-only afterward until the next initialization; last write wins.
#[derive(Debug, Clone, Copy, PartialEq, Eq, Structural)]
pub struct Settings {
    /// Verbosity level that gates diagnostic emission.
    pub verbosity: usize,
}

/// Whether a diagnostic at the given threshold is emitted: true if and
/// only if the configured verbosity meets the threshold.
pub open spec fn spec_emits(s: Settings, threshold: usize) -> bool {
    s.verbosity >= threshold
}

impl Settings {
    /// Decide whether a diagnostic at the given threshold is emitted;
    /// callers must not format the message unless this returns true.
    pub fn emits(&self, threshold: usize) -> (r: bool)
        ensures
            r == spec_emits(*self, threshold),
    {
        self.verbosity >= threshold
    }
}

} // verus!
