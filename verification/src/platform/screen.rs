//! Rectangles and monitors, in the desktop's own coordinates.

use vstd::prelude::*;

verus! {

/// A rectangle in physical pixels: left and top inclusive, right and bottom exclusive.
#[derive(Clone, Copy, Debug, Default, PartialEq, Eq, Structural)]
pub struct Rect {
    /// The left edge.
    pub left: i32,
    /// The top edge.
    pub top: i32,
    /// The right edge.
    pub right: i32,
    /// The bottom edge.
    pub bottom: i32,
}

impl Rect {
    /// Whether the two measurements fit the integers they are measured in.
    pub open spec fn measurable(self) -> bool {
        &&& i32::MIN <= self.right - self.left <= i32::MAX
        &&& i32::MIN <= self.bottom - self.top <= i32::MAX
    }

    /// How wide it is.
    pub fn width(self) -> (width: i32)
        requires
            i32::MIN <= self.right - self.left <= i32::MAX,
        ensures
            width == self.right - self.left,
    {
        self.right - self.left
    }

    /// How tall it is.
    pub fn height(self) -> (height: i32)
        requires
            i32::MIN <= self.bottom - self.top <= i32::MAX,
        ensures
            height == self.bottom - self.top,
    {
        self.bottom - self.top
    }
}

/// One monitor: its device name, the whole screen, and the part no taskbar covers.
#[derive(Clone, Debug, PartialEq, Eq)]
pub struct Monitor {
    /// The display's device name, which is what a remembered position is keyed by.
    pub device: String,
    /// The whole screen.
    pub bounds: Rect,
    /// The part of it windows are placed in.
    pub work: Rect,
}

} // verus!
