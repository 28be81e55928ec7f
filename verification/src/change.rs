//! Change detection that also sees changes made earlier in the running system.
use vstd::prelude::*;

verus! {

/// Helper structure for immediate mode compatible state change detection.
pub struct ChangeDetector {
    /// Tick at which the system last ran.
    pub last_run: u32,
}

impl ChangeDetector {
    /// Has state changed since and including last time system was executed: it is marked
    /// changed, or it was last changed at the tick of the last run.
    pub fn has_changed(&self, is_changed: bool, last_changed: u32) -> (r: bool)
        ensures
            r == (is_changed || last_changed == self.last_run),
    {
        is_changed || last_changed == self.last_run
    }
}

} // verus!
