//! A slideshow of a theme's images, always shown as text.

use vstd::prelude::*;
use crate::mode::DisplayMode;
use crate::registry::PathRegistry;
use crate::slideshow::{Slideshow, SlideshowError, TICK_MS};

verus! {

/// Starts a slideshow of `files` of its own, shown as text; `q` is the only key
/// that has an effect.
pub fn run(files: Vec<String>) -> (r: Result<(PathRegistry, Slideshow), SlideshowError>)
    ensures
        files@.len() == 0 ==> r == Err::<(PathRegistry, Slideshow), SlideshowError>(
            SlideshowError::EmptyRegistry,
        ),
        files@.len() > 0 ==> (r matches Ok((reg, show)) && reg@ == files@ && show
            == Slideshow::initial(files@[0], DisplayMode::Ascii, TICK_MS, false)),
{
    let registry = PathRegistry::from_paths(files);
    match Slideshow::start(&registry, DisplayMode::Ascii, TICK_MS, false) {
        Ok(show) => Ok((registry, show)),
        Err(e) => Err(e),
    }
}

} // verus!
