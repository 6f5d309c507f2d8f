//! The slideshow controller: which image is shown, in which mode, and how key
//! presses and elapsed ticks change that.
//!
//! The controller makes decisions only. The caller draws the current frame,
//! waits for input for at most `poll_timeout`, hands each key and each due tick
//! to the controller, and carries out the returned [`Action`].

use vstd::prelude::*;
use vstd::arithmetic::div_mod::{lemma_add_mod_noop_right, lemma_mod_bound, lemma_small_mod};
use crate::mode::DisplayMode;
use crate::registry::{PathRegistry, advanced, wrap};

verus! {

/// Milliseconds between two advances of the slideshow.
pub const TICK_MS: u64 = 3000;

/// What should be on screen: an image location and the mode to show it in.
#[derive(Debug)]
pub struct FrameSource {
    pub mode: DisplayMode,
    pub path: String,
}

impl FrameSource {
    /// A copy with the same mode and path.
    pub fn duplicate(&self) -> (r: FrameSource)
        ensures
            r == *self,
    {
        FrameSource { mode: self.mode, path: self.path.clone() }
    }
}

#[derive(Clone, Copy, Debug, PartialEq, Eq, Structural)]
pub enum Phase {
    Running,
    Exiting,
}

/// Something the caller observed while waiting.
#[derive(Clone, Copy, Debug, PartialEq, Eq, Structural)]
pub enum Event {
    /// A character key was pressed.
    Key(char),
    /// A full tick interval has passed since the last advance.
    Tick,
}

/// What the caller must do after an event.
#[derive(Debug)]
pub enum Action {
    /// Nothing changes on screen.
    Stay,
    /// Render this frame afresh and show it from now on.
    Refresh(FrameSource),
    /// Ask the producer to stop, restore the terminal and return.
    Quit,
}

#[derive(Clone, Copy, Debug, PartialEq, Eq, Structural)]
pub enum SlideshowError {
    /// There is no image to show.
    EmptyRegistry,
}

/// The controller's state.
#[derive(Debug)]
pub struct Slideshow {
    /// Position in the registry, reduced modulo its length whenever it is read.
    pub index: usize,
    /// The frame currently shown.
    pub frame: FrameSource,
    pub phase: Phase,
    /// Milliseconds between two advances.
    pub tick_ms: u64,
    /// Whether the `a` key switches the display mode.
    pub toggle_enabled: bool,
}

impl Slideshow {
    /// The state right after `start` on a registry whose first path is `first`.
    pub open spec fn initial(
        first: String,
        mode: DisplayMode,
        tick_ms: u64,
        toggle_enabled: bool,
    ) -> Slideshow {
        Slideshow {
            index: 0,
            frame: FrameSource { mode, path: first },
            phase: Phase::Running,
            tick_ms,
            toggle_enabled,
        }
    }

    /// The state after key `key` is pressed.
    pub open spec fn after_key(self, key: char) -> Slideshow {
        if self.phase == Phase::Exiting {
            self
        } else if key == 'q' {
            Slideshow { phase: Phase::Exiting, ..self }
        } else if key == 'a' && self.toggle_enabled {
            Slideshow {
                frame: FrameSource { mode: self.frame.mode.spec_toggled(), path: self.frame.path },
                ..self
            }
        } else {
            self
        }
    }

    /// The action owed when key `key` is pressed.
    pub open spec fn key_action(self, key: char) -> Action {
        if self.phase == Phase::Exiting {
            Action::Stay
        } else if key == 'q' {
            Action::Quit
        } else if key == 'a' && self.toggle_enabled {
            Action::Refresh(self.after_key(key).frame)
        } else {
            Action::Stay
        }
    }

    /// The state after a tick, with `paths` the registry's contents at that moment.
    pub open spec fn after_tick(self, paths: Seq<String>) -> Slideshow {
        if self.phase == Phase::Exiting || paths.len() == 0 {
            self
        } else {
            let next = wrap(self.index + 1, paths.len() as int);
            Slideshow {
                index: next as usize,
                frame: FrameSource { mode: self.frame.mode, path: paths[next] },
                ..self
            }
        }
    }

    /// The action owed on a tick.
    pub open spec fn tick_action(self, paths: Seq<String>) -> Action {
        if self.phase == Phase::Exiting || paths.len() == 0 {
            Action::Stay
        } else {
            Action::Refresh(self.after_tick(paths).frame)
        }
    }

    pub open spec fn after_event(self, event: Event, paths: Seq<String>) -> Slideshow {
        match event {
            Event::Key(c) => self.after_key(c),
            Event::Tick => self.after_tick(paths),
        }
    }

    pub open spec fn event_action(self, event: Event, paths: Seq<String>) -> Action {
        match event {
            Event::Key(c) => self.key_action(c),
            Event::Tick => self.tick_action(paths),
        }
    }

    /// Shows the registry's first path in `mode`; fails on an empty registry.
    pub fn start(
        registry: &PathRegistry,
        mode: DisplayMode,
        tick_ms: u64,
        toggle_enabled: bool,
    ) -> (r: Result<Slideshow, SlideshowError>)
        ensures
            registry@.len() == 0 ==> r == Err::<Slideshow, SlideshowError>(
                SlideshowError::EmptyRegistry,
            ),
            registry@.len() > 0 ==> r == Ok::<Slideshow, SlideshowError>(
                Slideshow::initial(registry@[0], mode, tick_ms, toggle_enabled),
            ),
    {
        match registry.get(0) {
            None => Err(SlideshowError::EmptyRegistry),
            Some(first) => Ok(
                Slideshow {
                    index: 0,
                    frame: FrameSource { mode, path: first.clone() },
                    phase: Phase::Running,
                    tick_ms,
                    toggle_enabled,
                },
            ),
        }
    }

    /// How long to wait for input before the next tick is due.
    pub fn poll_timeout(&self, elapsed_ms: u64) -> (r: u64)
        ensures
            r == (if elapsed_ms >= self.tick_ms { 0 } else { self.tick_ms - elapsed_ms }),
    {
        self.tick_ms.saturating_sub(elapsed_ms)
    }

    /// Whether a tick is due after `elapsed_ms` milliseconds since the last one.
    pub fn tick_due(&self, elapsed_ms: u64) -> (r: bool)
        ensures
            r == (elapsed_ms >= self.tick_ms),
    {
        elapsed_ms >= self.tick_ms
    }

    pub fn is_running(&self) -> (r: bool)
        ensures
            r == (self.phase == Phase::Running),
    {
        match self.phase {
            Phase::Running => true,
            Phase::Exiting => false,
        }
    }

    /// `q` ends the slideshow; `a` switches the display mode, when enabled, and
    /// asks for the same path to be rendered at once; other keys are ignored.
    pub fn on_key(&mut self, key: char) -> (r: Action)
        ensures
            *final(self) == old(self).after_key(key),
            r == old(self).key_action(key),
    {
        if !self.is_running() {
            return Action::Stay;
        }
        if key == 'q' {
            self.phase = Phase::Exiting;
            Action::Quit
        } else if key == 'a' && self.toggle_enabled {
            self.frame.mode = self.frame.mode.toggled();
            Action::Refresh(self.frame.duplicate())
        } else {
            Action::Stay
        }
    }

    /// Advances to the next path, reading the registry's length now, and asks
    /// for that path to be rendered. Nothing happens on an empty registry or
    /// after the slideshow has ended.
    pub fn on_tick(&mut self, registry: &PathRegistry) -> (r: Action)
        ensures
            *final(self) == old(self).after_tick(registry@),
            r == old(self).tick_action(registry@),
            final(self).phase == Phase::Running && registry@.len() > 0 ==> final(self).index
                < registry@.len(),
    {
        if !self.is_running() {
            return Action::Stay;
        }
        let len = registry.len();
        if len == 0 {
            return Action::Stay;
        }
        let next = (self.index % len + 1) % len;
        proof {
            lemma_add_mod_noop_right(1, self.index as int, len as int);
            lemma_mod_bound(self.index + 1, len as int);
            lemma_small_mod(next as nat, len as nat);
        }
        assert(next == wrap(self.index + 1, len as int));
        assert(next == wrap(next as int, len as int));
        let path = registry.get(next);
        match path {
            Some(p) => {
                self.index = next;
                self.frame = FrameSource { mode: self.frame.mode, path: p.clone() };
                Action::Refresh(self.frame.duplicate())
            },
            None => Action::Stay,
        }
    }

    /// Dispatches `event` to `on_key` or `on_tick`.
    pub fn handle(&mut self, event: Event, registry: &PathRegistry) -> (r: Action)
        ensures
            *final(self) == old(self).after_event(event, registry@),
            r == old(self).event_action(event, registry@),
    {
        match event {
            Event::Key(c) => self.on_key(c),
            Event::Tick => self.on_tick(registry),
        }
    }
}

/// Pressing `a` twice, while the toggle is enabled, gives back the state one
/// started from, and the second press asks for exactly the frame that was
/// shown before the first: same path, same mode.
pub proof fn lemma_toggle_twice_restores(s: Slideshow)
    requires
        s.phase == Phase::Running,
        s.toggle_enabled,
    ensures
        s.after_key('a').after_key('a') == s,
        s.after_key('a').key_action('a') == Action::Refresh(s.frame),
{
    crate::mode::lemma_toggle_twice(s.frame.mode);
}

/// A tick moves the running slideshow one step along the registry as it is at
/// that moment, and shows the path found there.
pub proof fn lemma_tick_advances(s: Slideshow, paths: Seq<String>)
    requires
        s.phase == Phase::Running,
        0 < paths.len() <= usize::MAX,
    ensures
        s.after_tick(paths).index == advanced(s.index as int, 1, paths.len() as int),
        s.after_tick(paths).frame.path == paths[s.after_tick(paths).index as int],
        s.after_tick(paths).frame.mode == s.frame.mode,
        s.tick_action(paths) == Action::Refresh(s.after_tick(paths).frame),
{
    crate::registry::lemma_wrap_in_range(s.index + 1, paths.len() as int);
    assert(advanced(s.index as int, 0, paths.len() as int) == s.index);
}

} // verus!
