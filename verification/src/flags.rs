//! The flag through which the presentation side asks the worker to stop.

use vstd::prelude::*;

verus! {

/// State that the presentation side and the worker both see. Whoever shares
/// it between threads keeps it behind one lock and holds that lock only for
/// one of the calls below.
#[derive(Clone, Copy, Debug, PartialEq, Eq, Structural)]
pub struct SharedFlags {
    /// Set once the user has asked to abort the current attempt.
    pub abort_requested: bool,
}

impl SharedFlags {
    /// Flags with no abort requested.
    pub fn new() -> (flags: SharedFlags)
        ensures
            !flags.abort_requested,
    {
        SharedFlags { abort_requested: false }
    }

    /// Records that the user asked to abort.
    pub fn request_abort(&mut self)
        ensures
            final(self).abort_requested,
    {
        self.abort_requested = true;
    }

    /// Whether an abort has been asked for since the attempt began.
    pub fn is_abort_requested(&self) -> (b: bool)
        ensures
            b == self.abort_requested,
    {
        self.abort_requested
    }

    /// Clears the request, as at the start of every attempt.
    pub fn reset(&mut self)
        ensures
            !final(self).abort_requested,
    {
        self.abort_requested = false;
    }
}

} // verus!
