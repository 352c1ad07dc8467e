//! Geometry policy: the rectangle a tab surface occupies beneath the
//! native chrome (tab bar, toolbar, window controls).

use vstd::prelude::*;

verus! {

/// Combined height, in logical pixels, of the native chrome regions
/// (tab bar and toolbar) that every surface sits beneath.
pub const HEADER_HEIGHT: u32 = 80;

/// Size of the host window's inner area, in logical pixels.
#[derive(Clone, Copy, PartialEq, Eq, Structural, Debug)]
pub struct WindowSize {
    pub width: u32,
    pub height: u32,
}

/// Position and size of a tab surface, in logical pixels.
#[derive(Clone, Copy, PartialEq, Eq, Structural, Debug)]
pub struct SurfaceRect {
    pub x: u32,
    pub y: u32,
    pub width: u32,
    pub height: u32,
}

/// The rectangle for a surface: flush left, directly below the chrome,
/// spanning the full window width and the remaining height.
pub open spec fn rect_for(window: WindowSize, chrome_height: u32) -> SurfaceRect {
    SurfaceRect {
        x: 0,
        y: chrome_height,
        width: window.width,
        height: (window.height - chrome_height) as u32,
    }
}

/// Computes the surface rectangle for a window of the given size under a
/// chrome of the given height. The chrome must fit inside the window; a
/// taller chrome would leave no room for content at all.
pub fn compute_rect(window: WindowSize, chrome_height: u32) -> (r: SurfaceRect)
    requires
        chrome_height <= window.height,
    ensures
        r == rect_for(window, chrome_height),
{
    SurfaceRect {
        x: 0,
        y: chrome_height,
        width: window.width,
        height: window.height - chrome_height,
    }
}

} // verus!
