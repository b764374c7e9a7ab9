//! Client-area rectangles and the device-independent layout computation.
//!
//! Physical pixel coordinates are divided by an integer DPI divisor (the
//! ratio of the display's pixels-per-inch to the reference 96, truncated to
//! an integer before use). The truncation at non-100% scale factors is this
//! renderer's fixed policy, stated exactly by the contracts below, and loses
//! precision on purpose: a display at 150% scale gets the divisor 1.

use vstd::prelude::*;

verus! {

/// The reference density: logical pixels per inch at 100% scale.
pub const REFERENCE_DPI: i32 = 96;

/// A rectangle in the window system's convention: `left`/`top` and the
/// exclusive `right`/`bottom` corner, in pixels.
#[derive(Clone, Copy, PartialEq, Eq, Structural, Debug)]
pub struct Rect {
    pub left: i32,
    pub top: i32,
    pub right: i32,
    pub bottom: i32,
}

impl Rect {
    /// A client rectangle as the window system reports it: the origin at
    /// (0, 0) and nonnegative extents.
    pub open spec fn is_client(self) -> bool {
        0 <= self.left <= self.right && 0 <= self.top <= self.bottom
    }

    pub fn new(left: i32, top: i32, right: i32, bottom: i32) -> (r: Rect)
        ensures
            r == (Rect { left, top, right, bottom }),
    {
        Rect { left, top, right, bottom }
    }
}

/// The layout rectangle for a client rectangle `r` under integer DPI
/// divisors `sx`, `sy`: each horizontal coordinate divided by `sx`, each
/// vertical one by `sy`, with the right and bottom edges measured from the
/// client origin (width and height, scaled).
pub open spec fn spec_layout_rect(r: Rect, sx: i32, sy: i32) -> Rect
    recommends
        r.is_client(),
        1 <= sx,
        1 <= sy,
{
    Rect {
        left: (r.left as int / sx as int) as i32,
        top: (r.top as int / sy as int) as i32,
        right: ((r.right - r.left) / sx as int) as i32,
        bottom: ((r.bottom - r.top) / sy as int) as i32,
    }
}

/// The integer DPI divisor for a display density: `dpi / 96`, truncated.
pub fn dpi_divisor(dpi: i32) -> (s: i32)
    requires
        0 <= dpi,
    ensures
        s == dpi as int / REFERENCE_DPI as int,
        dpi >= REFERENCE_DPI ==> s >= 1,
{
    dpi / REFERENCE_DPI
}

/// Computes the device-independent layout rectangle for one frame of text.
///
/// The divisors must be at least 1: a density below the reference would
/// truncate to a divisor of 0, which has no quotient.
pub fn layout_rect(r: &Rect, sx: i32, sy: i32) -> (out: Rect)
    requires
        r.is_client(),
        1 <= sx,
        1 <= sy,
    ensures
        out == spec_layout_rect(*r, sx, sy),
{
    let width = r.right - r.left;
    let height = r.bottom - r.top;
    Rect { left: r.left / sx, top: r.top / sy, right: width / sx, bottom: height / sy }
}

/// The pixel size of the backing surface for a client rectangle: its width
/// and height.
pub fn target_size(r: &Rect) -> (s: (u32, u32))
    requires
        r.is_client(),
    ensures
        s.0 == r.right - r.left,
        s.1 == r.bottom - r.top,
{
    ((r.right - r.left) as u32, (r.bottom - r.top) as u32)
}

} // verus!
