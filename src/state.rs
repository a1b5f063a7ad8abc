use vstd::prelude::*;

verus! {

/// The geometry of one window: its inner size in pixels and the position of its
/// top-left corner on the screen.
///
/// A negative `x` or `y` means that no position is stored: the window is
/// centred instead of placed.
#[derive(Clone, Copy, Debug, PartialEq, Eq, Structural)]
pub struct SimpleWindowState {
    pub width: u32,
    pub height: u32,
    pub x: i32,
    pub y: i32,
}

/// The record used whenever nothing usable is stored.
pub open spec fn default_state() -> SimpleWindowState {
    SimpleWindowState { width: 800, height: 1200, x: -1i32, y: -1i32 }
}

impl SimpleWindowState {
    /// Whether the record holds a position to place the window at.
    pub open spec fn spec_has_position(self) -> bool {
        self.x >= 0 && self.y >= 0
    }

    /// True when the record holds a position; false when the window is to be
    /// centred.
    pub fn has_position(&self) -> (r: bool)
        ensures
            r == self.spec_has_position(),
    {
        self.x >= 0 && self.y >= 0
    }
}

impl Default for SimpleWindowState {
    fn default() -> (r: Self)
        ensures
            r == default_state(),
    {
        SimpleWindowState { width: 800, height: 1200, x: -1i32, y: -1i32 }
    }
}

} // verus!
