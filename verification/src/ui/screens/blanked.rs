//! The black screen shown while noise plays.

use vstd::prelude::*;

verus! {

/// What the black screen does on one frame.
#[derive(Debug, Clone, Copy, PartialEq, Eq, Structural)]
pub struct BlankedFrame {
    /// Leave the black screen for the settings menu.
    pub switch_mode: bool,
    /// Ask the window to go fullscreen.
    pub request_fullscreen: bool,
}

/// The black screen. It asks for fullscreen once each time it is entered.
pub struct BlankedScreen {
    fullscreen_set: bool,
}

impl BlankedScreen {
    /// Whether fullscreen has been asked for since the screen was last entered.
    pub closed spec fn has_requested_fullscreen(self) -> bool {
        self.fullscreen_set
    }

    /// A screen that has not asked for fullscreen yet.
    pub fn new() -> (s: Self)
        ensures
            !s.has_requested_fullscreen(),
    {
        BlankedScreen { fullscreen_set: false }
    }

    /// Decides one frame of the black screen: Escape leaves it, and fullscreen
    /// is asked for on the first frame after the screen was entered.
    pub fn frame(&mut self, escape_pressed: bool) -> (f: BlankedFrame)
        ensures
            f.switch_mode == escape_pressed,
            f.request_fullscreen == !old(self).has_requested_fullscreen(),
            final(self).has_requested_fullscreen(),
    {
        let should_switch = escape_pressed;
        let request = !self.fullscreen_set;
        if request {
            self.fullscreen_set = true;
        }
        BlankedFrame { switch_mode: should_switch, request_fullscreen: request }
    }

    /// Forgets the fullscreen request, so that it is made again the next time
    /// the screen is entered.
    pub fn reset_fullscreen(&mut self)
        ensures
            !final(self).has_requested_fullscreen(),
    {
        self.fullscreen_set = false;
    }
}

/// Between two resets fullscreen is asked for once: a screen that has not
/// asked yet asks on its next frame, and the frame after that does not ask.
pub proof fn lemma_fullscreen_requested_once(
    before: BlankedScreen,
    first: BlankedFrame,
    between: BlankedScreen,
    second: BlankedFrame,
)
    requires
        first.request_fullscreen == !before.has_requested_fullscreen(),
        between.has_requested_fullscreen(),
        second.request_fullscreen == !between.has_requested_fullscreen(),
    ensures
        !before.has_requested_fullscreen() ==> first.request_fullscreen,
        !second.request_fullscreen,
{
}

} // verus!
