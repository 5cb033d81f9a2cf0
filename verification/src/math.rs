use vstd::prelude::*;

verus! {

/// A rectangle in window pixels, as the client stores its window rectangle.
#[derive(Clone, Copy, Debug, PartialEq, Eq)]
pub struct RectI {
    pub x1: u32,
    pub y1: u32,
    pub x2: u32,
    pub y2: u32,
}

} // verus!
