//! A shared switch that background loops consult before each round.

use std::sync::atomic::{AtomicBool, Ordering};
use std::sync::Arc;
use vstd::prelude::*;

verus! {

/// A pause switch shared between the event handler and the background loops.
pub struct ThreadControl(Arc<AtomicBool>);

impl ThreadControl {
    /// A switch that lets the loops run.
    pub fn new() -> Self {
        ThreadControl(Arc::new(AtomicBool::new(false)))
    }

    /// Asks the loops to wait.
    pub fn pause(&self) {
        self.0.store(true, Ordering::SeqCst);
    }

    /// Lets the loops go on.
    pub fn resume(&self) {
        self.0.store(false, Ordering::SeqCst);
    }

    /// Whether the loops are asked to wait. Another holder of the switch may change it
    /// at any time, so nothing is promised of the answer.
    pub fn is_paused(&self) -> bool {
        self.0.load(Ordering::SeqCst)
    }

    /// Another handle on the same switch.
    pub fn share(&self) -> (r: Self)
        ensures
            r == *self,
    {
        ThreadControl(Arc::clone(&self.0))
    }
}

} // verus!
