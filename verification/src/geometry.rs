//! Integer window geometry: logical sizes, positions and frame insets.
//!
//! Native toolkits disagree about coordinate origins (AppKit's origin is the
//! bottom-left corner of the screen, everything else here is top-left,
//! y-down) and about whether a size includes the client-side decoration
//! frame. The functions in this module perform those conversions.

use vstd::prelude::*;

verus! {

/// Logical size of a window's content area, in pixels.
#[derive(Clone, Copy, Debug, PartialEq, Eq, Structural)]
pub struct WindowSize {
    pub width: u32,
    pub height: u32,
}

impl WindowSize {
    pub fn new(width: u32, height: u32) -> (s: WindowSize)
        ensures
            s.width == width,
            s.height == height,
    {
        WindowSize { width, height }
    }
}

/// A position on the screen or within a window, top-left origin, y-down.
#[derive(Clone, Copy, Debug, PartialEq, Eq, Structural)]
pub struct WindowPoint {
    pub x: i64,
    pub y: i64,
}

impl WindowPoint {
    pub fn new(x: i64, y: i64) -> (p: WindowPoint)
        ensures
            p.x == x,
            p.y == y,
    {
        WindowPoint { x, y }
    }
}

/// Widths of the decoration frame around a window's content, per edge.
#[derive(Clone, Copy, Debug, PartialEq, Eq, Structural)]
pub struct FrameInsets {
    pub left: u32,
    pub top: u32,
    pub right: u32,
    pub bottom: u32,
}

/// Flip a top-left-origin y coordinate into a bottom-left-origin one (or
/// back): the window's top edge at `y` from the top of a screen of height
/// `screen_height` sits at `screen_height - y - window_height` from the
/// bottom. Uses the screen height at event time, so multi-monitor setups
/// that change the effective screen height are handled.
pub fn flip_y(screen_height: i64, y: i64, window_height: i64) -> (flipped: i64)
    requires
        -0x2000_0000_0000_0000 <= screen_height <= 0x2000_0000_0000_0000,
        -0x2000_0000_0000_0000 <= y <= 0x2000_0000_0000_0000,
        -0x2000_0000_0000_0000 <= window_height <= 0x2000_0000_0000_0000,
    ensures
        flipped == screen_height - y - window_height,
{
    screen_height - y - window_height
}

} // verus!
