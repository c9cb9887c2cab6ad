//! Size of the primary screen, used to pick the initial window size.

use vstd::prelude::*;

verus! {

/// Width and height of a screen, in pixels.
#[derive(Clone, Copy, Debug, PartialEq, Eq, Structural)]
pub struct ScreenSize {
    pub x: u64,
    pub y: u64,
}

/// The size assumed where the platform offers no way to ask for it.
pub open spec fn fallback_size() -> ScreenSize {
    ScreenSize { x: 1200, y: 800 }
}

/// The size of the display on a platform without a display query: always the
/// fallback of 1200 by 800 pixels.
pub fn display_size() -> (size: ScreenSize)
    ensures
        size == fallback_size(),
{
    ScreenSize { x: 1200, y: 800 }
}

/// The size of the primary screen.
#[inline(always)]
pub fn get_primary_screen_size() -> (size: ScreenSize)
    ensures
        size == fallback_size(),
{
    display_size()
}

} // verus!
