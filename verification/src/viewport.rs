//! The GPU viewport and how it follows the framebuffer.
//!
//! The viewport is the one piece of GPU state the resize handler touches:
//! whenever the provider reports a new framebuffer size, the viewport is
//! set to cover the full framebuffer from the origin. Nothing else reacts
//! to a resize.

use vstd::prelude::*;

verus! {

/// The rectangle of the framebuffer that rendering output maps onto.
#[derive(PartialEq, Eq, Structural, Clone, Copy, Debug)]
pub struct Viewport {
    pub x: i32,
    pub y: i32,
    pub width: i32,
    pub height: i32,
}

/// The viewport set right after window creation, from the *actual*
/// framebuffer size the provider reports (which may differ from the
/// requested window size, e.g. under high-DPI scaling).
pub fn initial_viewport(actual_width: i32, actual_height: i32) -> (vp: Viewport)
    ensures
        vp == (Viewport { x: 0, y: 0, width: actual_width, height: actual_height }),
{
    Viewport { x: 0, y: 0, width: actual_width, height: actual_height }
}

/// The resize handler: on a framebuffer size change to `width` x `height`,
/// the viewport becomes exactly (0, 0, width, height); no other state is
/// touched.
pub fn framebuffer_size_callback(viewport: &mut Viewport, width: i32, height: i32)
    ensures
        *final(viewport) == (Viewport { x: 0, y: 0, width: width, height: height }),
{
    viewport.x = 0;
    viewport.y = 0;
    viewport.width = width;
    viewport.height = height;
}

} // verus!
