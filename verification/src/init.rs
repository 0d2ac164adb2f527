//! One-time initialization gating for the audio engine.

use vstd::prelude::*;

verus! {

/// Whether the audio engine should be, or already has been, initialized.
///
/// The host checks [`AudioInitialization::should_initialize`] once per tick;
/// when it returns true it initializes the engine and calls
/// [`AudioInitialization::mark_initialized`], after which initialization is
/// never requested again.
pub struct AudioInitialization {
    /// Should the engine be initialized at the next opportunity?
    pub needed: bool,
    /// Has the engine already been initialized?
    pub done: bool,
}

impl AudioInitialization {
    /// A fresh initialization state; `needed` says whether the engine should
    /// be brought up at the next opportunity.
    pub fn new(needed: bool) -> (r: AudioInitialization)
        ensures
            r.needed == needed,
            !r.done,
    {
        AudioInitialization { needed, done: false }
    }

    /// Whether the engine has been initialized.
    pub fn is_done(&self) -> (r: bool)
        ensures
            r == self.done,
    {
        self.done
    }

    /// True exactly when initialization is wanted and has not happened yet.
    pub fn should_initialize(&self) -> (r: bool)
        ensures
            r == (self.needed && !self.done),
    {
        self.needed && !self.done
    }

    /// Records that the engine was initialized; initialization is no longer
    /// needed afterwards.
    pub fn mark_initialized(&mut self)
        ensures
            final(self).done,
            !final(self).needed,
    {
        self.done = true;
        self.needed = false;
    }
}

impl Default for AudioInitialization {
    /// By default initialization is wanted and has not happened.
    fn default() -> (r: AudioInitialization)
        ensures
            r.needed,
            !r.done,
    {
        AudioInitialization { needed: true, done: false }
    }
}

} // verus!
