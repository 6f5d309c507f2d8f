//! The decisions of the background image producer.
//!
//! The producer's owner runs the loop: it asks `next_step` what to do, performs
//! the generation and download itself, and reports each saved file with
//! `on_saved` or a failure with `on_failed`. A failure ends the producer: the
//! images saved so far stay in the registry and no slot is retried.

use vstd::prelude::*;
use crate::registry::PathRegistry;
use crate::signal::{CancellationSignal, signal_follows};

verus! {

/// The largest number of images one run generates.
pub const MAX_IMAGES: usize = 5;

/// What the producer should do next.
#[derive(Clone, Copy, Debug, PartialEq, Eq, Structural)]
pub enum ProducerStep {
    /// Generate and save the image of this slot (slots count from 0).
    Generate(usize),
    /// Leave the loop; the finished flag has been set.
    Finish,
}

/// The producer's progress.
#[derive(Clone, Copy, Debug, PartialEq, Eq, Structural)]
pub struct Producer {
    /// Images saved and appended so far.
    pub made: usize,
    /// Images to generate at most.
    pub max_images: usize,
    /// The registry still starts with a placeholder that the first saved image replaces.
    pub placeholder_pending: bool,
    /// The loop has ended.
    pub finished: bool,
}

impl Producer {
    /// A producer that has not started.
    pub open spec fn fresh(max_images: usize, placeholder_pending: bool) -> Producer {
        Producer { made: 0, max_images, placeholder_pending, finished: false }
    }

    /// Whether the loop stops instead of starting another image.
    pub open spec fn stops(self, signal: CancellationSignal) -> bool {
        self.finished || signal.stop_requested || self.made >= self.max_images
    }

    pub open spec fn spec_next_step(self, signal: CancellationSignal) -> ProducerStep {
        if self.stops(signal) {
            ProducerStep::Finish
        } else {
            ProducerStep::Generate(self.made)
        }
    }

    pub open spec fn after_next_step(self, signal: CancellationSignal) -> Producer {
        if self.stops(signal) {
            Producer { finished: true, ..self }
        } else {
            self
        }
    }

    pub open spec fn signal_after_next_step(
        self,
        signal: CancellationSignal,
    ) -> CancellationSignal {
        if self.stops(signal) {
            CancellationSignal { finished: true, ..signal }
        } else {
            signal
        }
    }

    /// The registry's contents after `path` is saved: appended, and the
    /// placeholder in front dropped if this is the first image.
    pub open spec fn registry_after_save(self, paths: Seq<String>, path: String) -> Seq<String> {
        let grown = paths.push(path);
        if self.placeholder_pending && paths.len() > 0 {
            grown.subrange(1, grown.len() as int)
        } else {
            grown
        }
    }

    pub fn new(max_images: usize, placeholder_pending: bool) -> (r: Producer)
        ensures
            r == Producer::fresh(max_images, placeholder_pending),
    {
        Producer { made: 0, max_images, placeholder_pending, finished: false }
    }

    /// Checks the stop flag and the count before each image. When the loop
    /// ends, marks both the producer and the signal finished.
    pub fn next_step(&mut self, signal: &mut CancellationSignal) -> (r: ProducerStep)
        ensures
            r == old(self).spec_next_step(*old(signal)),
            *final(self) == old(self).after_next_step(*old(signal)),
            *final(signal) == old(self).signal_after_next_step(*old(signal)),
            signal_follows(*old(signal), *final(signal)),
    {
        if self.finished || signal.stop_requested || self.made >= self.max_images {
            self.finished = true;
            signal.mark_finished();
            ProducerStep::Finish
        } else {
            ProducerStep::Generate(self.made)
        }
    }

    /// Records that the image of the current slot was saved at `path`: appends
    /// it, and on the first image removes the placeholder in front, within
    /// this one call so that a reader never sees an empty registry.
    pub fn on_saved(&mut self, registry: &mut PathRegistry, path: String)
        requires
            !old(self).finished,
            old(self).made < old(self).max_images,
        ensures
            final(registry)@ == old(self).registry_after_save(old(registry)@, path),
            final(registry)@.len() >= 1,
            *final(self) == (Producer {
                made: (old(self).made + 1) as usize,
                placeholder_pending: false,
                ..*old(self)
            }),
    {
        let had_any = !registry.is_empty();
        registry.append(path);
        if self.placeholder_pending && had_any {
            registry.remove_first();
        }
        self.made = self.made + 1;
        self.placeholder_pending = false;
    }

    /// Records that generating or saving an image failed: the producer stops.
    pub fn on_failed(&mut self, signal: &mut CancellationSignal)
        ensures
            *final(self) == (Producer { finished: true, ..*old(self) }),
            final(signal).finished,
            final(signal).stop_requested == old(signal).stop_requested,
    {
        self.finished = true;
        signal.mark_finished();
    }
}

/// On a registry that holds only the placeholder, saving the first image
/// leaves exactly one entry, the new path: the placeholder is gone and the two
/// are never both kept.
pub proof fn lemma_placeholder_replaced(p: Producer, placeholder: String, path: String)
    requires
        p.placeholder_pending,
    ensures
        p.registry_after_save(seq![placeholder], path) == seq![path],
{
    assert(p.registry_after_save(seq![placeholder], path) =~= seq![path]);
}

/// A producer whose stop flag is already set when it takes its first step
/// generates nothing: it finishes at once, with no image made, sets the
/// finished flag, and every later step finishes too. Since `on_saved` accepts
/// only an unfinished producer, nothing is ever appended.
pub proof fn lemma_stop_before_start(
    max_images: usize,
    placeholder_pending: bool,
    signal: CancellationSignal,
)
    requires
        signal.stop_requested,
    ensures
        ({
            let p = Producer::fresh(max_images, placeholder_pending);
            let stopped = p.after_next_step(signal);
            let stopped_signal = p.signal_after_next_step(signal);
            &&& p.spec_next_step(signal) == ProducerStep::Finish
            &&& stopped.finished
            &&& stopped.made == 0
            &&& stopped_signal.finished
            &&& stopped_signal.stop_requested
            &&& stopped.spec_next_step(stopped_signal) == ProducerStep::Finish
        }),
{
}

} // verus!
