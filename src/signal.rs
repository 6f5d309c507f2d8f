//! The flags through which the slideshow asks the producer to stop and the
//! producer reports that it has stopped.

use vstd::prelude::*;

verus! {

/// A pair of one-way flags: once set, neither is ever cleared by these methods.
#[derive(Clone, Copy, Debug, PartialEq, Eq, Structural)]
pub struct CancellationSignal {
    /// The slideshow has ended and no further image should be started.
    pub stop_requested: bool,
    /// The producer has left its loop.
    pub finished: bool,
}

/// `b` is a possible later state of `a`: no flag that was set has been cleared.
pub open spec fn signal_follows(a: CancellationSignal, b: CancellationSignal) -> bool {
    (a.stop_requested ==> b.stop_requested) && (a.finished ==> b.finished)
}

impl CancellationSignal {
    /// Both flags clear.
    pub fn new() -> (r: Self)
        ensures
            !r.stop_requested,
            !r.finished,
    {
        CancellationSignal { stop_requested: false, finished: false }
    }

    /// Asks the producer to start no further image.
    pub fn request_stop(&mut self)
        ensures
            final(self).stop_requested,
            final(self).finished == old(self).finished,
            signal_follows(*old(self), *final(self)),
    {
        self.stop_requested = true;
    }

    /// Records that the producer has stopped.
    pub fn mark_finished(&mut self)
        ensures
            final(self).finished,
            final(self).stop_requested == old(self).stop_requested,
            signal_follows(*old(self), *final(self)),
    {
        self.finished = true;
    }
}

} // verus!
