//! A slideshow of texts that are already rendered.

use vstd::prelude::*;
use crate::mode::DisplayMode;
use crate::registry::PathRegistry;
use crate::slideshow::{Slideshow, SlideshowError};

verus! {

/// Milliseconds between two texts.
pub const TEXT_TICK_MS: u64 = 5000;

/// Starts a slideshow whose entries are the texts `ascii_arts` themselves,
/// advancing every `TEXT_TICK_MS`; `q` is the only key that has an effect.
pub fn run(ascii_arts: Vec<String>) -> (r: Result<(PathRegistry, Slideshow), SlideshowError>)
    ensures
        ascii_arts@.len() == 0 ==> r == Err::<(PathRegistry, Slideshow), SlideshowError>(
            SlideshowError::EmptyRegistry,
        ),
        ascii_arts@.len() > 0 ==> (r matches Ok((reg, show)) && reg@ == ascii_arts@ && show
            == Slideshow::initial(ascii_arts@[0], DisplayMode::Ascii, TEXT_TICK_MS, false)),
{
    let texts = PathRegistry::from_paths(ascii_arts);
    match Slideshow::start(&texts, DisplayMode::Ascii, TEXT_TICK_MS, false) {
        Ok(show) => Ok((texts, show)),
        Err(e) => Err(e),
    }
}

} // verus!
