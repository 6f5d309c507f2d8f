//! The two ways a frame can be shown, and the toggle between them.

use vstd::prelude::*;

verus! {

/// How the current image is put on the screen.
#[derive(Clone, Copy, Debug, PartialEq, Eq, Structural)]
pub enum DisplayMode {
    /// As text produced from the image.
    Ascii,
    /// As pixels through the terminal's graphics protocol.
    Pixel,
}

impl DisplayMode {
    pub open spec fn spec_toggled(self) -> DisplayMode {
        match self {
            DisplayMode::Ascii => DisplayMode::Pixel,
            DisplayMode::Pixel => DisplayMode::Ascii,
        }
    }

    /// The other mode.
    pub fn toggled(self) -> (r: DisplayMode)
        ensures
            r == self.spec_toggled(),
    {
        match self {
            DisplayMode::Ascii => DisplayMode::Pixel,
            DisplayMode::Pixel => DisplayMode::Ascii,
        }
    }

    /// The mode selected by an "ascii" flag.
    pub fn from_ascii_flag(ascii: bool) -> (r: DisplayMode)
        ensures
            r == (if ascii { DisplayMode::Ascii } else { DisplayMode::Pixel }),
    {
        if ascii {
            DisplayMode::Ascii
        } else {
            DisplayMode::Pixel
        }
    }
}

/// Toggling twice gives back the mode one started from.
pub proof fn lemma_toggle_twice(m: DisplayMode)
    ensures
        m.spec_toggled().spec_toggled() == m,
        m.spec_toggled() != m,
{
}

} // verus!
