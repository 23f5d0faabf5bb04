use vstd::prelude::*;

verus! {

/// Pixel dimensions of a drawing surface.
#[derive(Clone, Copy, Debug, PartialEq, Eq, Structural)]
pub struct Size {
    pub width: u32,
    pub height: u32,
}

/// The smallest value a surface dimension is clamped to.
pub open spec fn clamped(v: u32) -> u32 {
    if v == 0 { 1 } else { v }
}

/// A dimension raised to at least one pixel, so no surface is degenerate.
pub fn clamp_dimension(v: u32) -> (r: u32)
    ensures
        r == clamped(v),
        r >= 1,
        v >= 1 ==> r == v,
{
    if v == 0 { 1 } else { v }
}

impl Size {
    /// Both dimensions clamped to at least one pixel.
    pub open spec fn spec_clamped(w: u32, h: u32) -> Size {
        Size { width: clamped(w), height: clamped(h) }
    }

    /// The size `(max(w, 1), max(h, 1))`.
    pub fn clamped(width: u32, height: u32) -> (r: Size)
        ensures
            r == Size::spec_clamped(width, height),
    {
        Size { width: clamp_dimension(width), height: clamp_dimension(height) }
    }
}

} // verus!
