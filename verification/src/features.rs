//! The background features and whether they run.

use vstd::prelude::*;
use crate::threadcontrol::ThreadControl;

verus! {

/// The state of the background features.
pub struct Features {
    pub thread_control: ThreadControl,
    pub running: bool,
}

impl Features {
    /// Features that have not been started.
    pub fn new() -> (r: Features)
        ensures
            !r.running,
    {
        Features { running: false, thread_control: ThreadControl::new() }
    }

    /// Marks the features as started. Says whether they have to be started now: only the
    /// first call does.
    pub fn start(&mut self) -> (r: bool)
        ensures
            r == !old(self).running,
            final(self).running,
    {
        if self.running {
            false
        } else {
            self.running = true;
            true
        }
    }
}

} // verus!
