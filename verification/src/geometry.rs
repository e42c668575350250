//! Positions, sizes and scales of windows and surfaces.
use vstd::prelude::*;

verus! {

/// An X11 window, known by its resource id.
#[derive(Clone, Copy, Debug, PartialEq, Eq, Hash, Structural)]
pub struct Window {
    pub id: u32,
}

impl Window {
    /// The id that X11 gives to no window.
    pub const NONE: u32 = 0;

    /// The absent window, which focus is given to when nothing is focused.
    pub fn none() -> (window: Window)
        ensures
            window == (Window { id: Window::NONE }),
    {
        Window { id: Window::NONE }
    }
}

/// The position and size of an X11 window, in X11 coordinates.
#[derive(Clone, Copy, Debug, PartialEq, Eq, Structural)]
pub struct WindowDims {
    pub x: i16,
    pub y: i16,
    pub width: u16,
    pub height: u16,
}

/// The position of the output that a window is on, by which the window's X11 position is shifted.
#[derive(Clone, Copy, Debug, PartialEq, Eq, Structural)]
pub struct WindowOutputOffset {
    pub x: i32,
    pub y: i32,
}

impl Default for WindowOutputOffset {
    fn default() -> (offset: WindowOutputOffset)
        ensures
            offset == (WindowOutputOffset { x: 0, y: 0 }),
    {
        WindowOutputOffset { x: 0, y: 0 }
    }
}

/// The position and size that a window is asked to take.
#[derive(Clone, Copy, Debug, PartialEq, Eq, Structural)]
pub struct PendingSurfaceState {
    pub x: i32,
    pub y: i32,
    pub width: i32,
    pub height: i32,
}

impl Default for PendingSurfaceState {
    fn default() -> (state: PendingSurfaceState)
        ensures
            state == (PendingSurfaceState { x: 0, y: 0, width: 0, height: 0 }),
    {
        PendingSurfaceState { x: 0, y: 0, width: 0, height: 0 }
    }
}

/// A scale factor, held as the integer by which it is ordered and found again: of two scale
/// factors the smaller one has the smaller key, and equal ones have equal keys.
#[derive(Clone, Copy, Debug, PartialEq, Eq, Structural)]
pub struct Scale {
    pub key: i64,
}

impl Scale {
    /// The smaller of two scale factors.
    pub fn min(self, other: Scale) -> (smaller: Scale)
        ensures
            smaller == (if self.key <= other.key { self } else { other }),
    {
        if self.key <= other.key {
            self
        } else {
            other
        }
    }
}

/// A point in logical coordinates.
#[derive(Clone, Copy, Debug, PartialEq, Eq, Structural)]
pub struct Point {
    pub x: i32,
    pub y: i32,
}

/// A size.
#[derive(Clone, Copy, Debug, PartialEq, Eq, Structural)]
pub struct Size {
    pub width: i32,
    pub height: i32,
}

/// Where an area starts and how large it is, in the logical coordinates of a surface.
#[derive(Clone, Copy, Debug, PartialEq, Eq, Structural)]
pub struct Area {
    pub origin: Point,
    pub size: Size,
}

/// The coordinate that `by` steps lead to from `at`. Coordinates are sixteen bits wide and wrap
/// around at both ends.
pub open spec fn moved(at: i16, by: int) -> int {
    (at + by + 0x8000) % 0x1_0000 - 0x8000
}

/// Moves a coordinate by the distance from one offset to another.
pub(crate) fn moved_between(at: i16, from: i32, to: i32) -> (result: i16)
    ensures
        result == moved(at, to - from),
{
    let distance: i32 = to.wrapping_sub(from);
    let short: i16 = #[verifier::truncate] (distance as i16);
    assert(short == (distance + 0x8000) % 0x1_0000 - 0x8000) by (bit_vector)
        requires
            short == distance as i16,
    ;
    at.wrapping_add(short)
}

/// The larger of one and the given extent: no surface is narrower or lower than that.
pub open spec fn at_least_one(extent: i32) -> i32 {
    if extent < 1 {
        1
    } else {
        extent
    }
}

pub(crate) fn clamp_extent(extent: i32) -> (clamped: i32)
    ensures
        clamped == at_least_one(extent),
{
    if extent < 1 {
        1
    } else {
        extent
    }
}

} // verus!
