use vstd::prelude::*;

verus! {

/// Low-order 16 bits of a packed 32-bit word: the width half of a size
/// notification's packed client-area dimensions.
pub open spec fn spec_loword(x: u32) -> u32 {
    x & 0xffff
}

/// High-order 16 bits of a packed 32-bit word: the height half of a size
/// notification's packed client-area dimensions.
pub open spec fn spec_hiword(x: u32) -> u32 {
    x >> 16
}

pub fn loword(x: u32) -> (r: u16)
    ensures
        r as u32 == spec_loword(x),
{
    proof {
        assert(x & 0xffff <= 0xffff) by (bit_vector);
    }
    (x & 0xffff) as u16
}

pub fn hiword(x: u32) -> (r: u16)
    ensures
        r as u32 == spec_hiword(x),
{
    proof {
        assert(x >> 16 <= 0xffff) by (bit_vector);
    }
    (x >> 16) as u16
}

/// A window client area reported by the platform, as the coordinates of its
/// edges in pixels.
#[derive(Clone, Copy, PartialEq, Eq, Structural, Debug)]
pub struct ClientRect {
    pub left: i32,
    pub top: i32,
    pub right: i32,
    pub bottom: i32,
}

impl ClientRect {
    /// A client rectangle is well formed when its edges are ordered; the
    /// platform reports client areas with the origin at the top-left corner.
    pub open spec fn wf(self) -> bool {
        self.left <= self.right && self.top <= self.bottom
    }

    pub open spec fn spec_width(self) -> int {
        self.right - self.left
    }

    pub open spec fn spec_height(self) -> int {
        self.bottom - self.top
    }

    pub fn width(&self) -> (w: u32)
        requires
            self.wf(),
        ensures
            w == self.spec_width(),
    {
        (self.right as i64 - self.left as i64) as u32
    }

    pub fn height(&self) -> (h: u32)
        requires
            self.wf(),
        ensures
            h == self.spec_height(),
    {
        (self.bottom as i64 - self.top as i64) as u32
    }
}

} // verus!
