//! The slideshow over the shared registry, in either display mode.

use vstd::prelude::*;
use crate::mode::DisplayMode;
use crate::registry::PathRegistry;
use crate::slideshow::{Slideshow, SlideshowError, TICK_MS};

verus! {

/// Adds `files` to the shared registry and starts a slideshow on it: text mode
/// when `ascii` is set, pixels otherwise, with `a` switching between the two.
pub fn run(registry: &mut PathRegistry, files: Vec<String>, ascii: bool) -> (r: Result<
    Slideshow,
    SlideshowError,
>)
    ensures
        final(registry)@ == old(registry)@ + files@,
        final(registry)@.len() == 0 ==> r == Err::<Slideshow, SlideshowError>(
            SlideshowError::EmptyRegistry,
        ),
        final(registry)@.len() > 0 ==> r == Ok::<Slideshow, SlideshowError>(
            Slideshow::initial(
                final(registry)@[0],
                if ascii { DisplayMode::Ascii } else { DisplayMode::Pixel },
                TICK_MS,
                true,
            ),
        ),
{
    registry.extend(files);
    Slideshow::start(registry, DisplayMode::from_ascii_flag(ascii), TICK_MS, true)
}

} // verus!
