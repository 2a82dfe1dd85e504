//! The bounding rectangle of a face.

use vstd::prelude::*;
use crate::single::Single;

verus! {

/// An axis-aligned rectangle in pixel coordinates.
#[derive(Clone, Copy, Debug, PartialEq, Eq, Structural)]
pub struct Rect {
    pub left: i32,
    pub top: i32,
    pub width: u32,
    pub height: u32,
}

impl Rect {
    /// The rectangle lies within an image of the given size.
    pub open spec fn inside(self, width: u32, height: u32) -> bool {
        &&& 0 <= self.left
        &&& 0 <= self.top
        &&& self.left + self.width <= width
        &&& self.top + self.height <= height
    }

    /// The square of edge `size` with its upper left corner at (`left`,
    /// `top`), each of the three converted to whole pixels; `None` where the
    /// edge converts to no pixel at all.
    pub fn square(left: Single, top: Single, size: Single) -> (r: Option<Rect>)
        ensures
            match r {
                Some(rect) => {
                    &&& rect.left == left.truncated_i32()
                    &&& rect.top == top.truncated_i32()
                    &&& rect.width == size.truncated_u32()
                    &&& rect.height == size.truncated_u32()
                    &&& rect.width > 0
                },
                None => size.truncated_u32() == 0,
            },
    {
        let edge = size.to_u32();
        if edge == 0 {
            None
        } else {
            Some(Rect { left: left.to_i32(), top: top.to_i32(), width: edge, height: edge })
        }
    }

    /// Whether the rectangle lies within an image of the given size.
    pub fn fits_within(&self, width: u32, height: u32) -> (r: bool)
        ensures
            r == self.inside(width, height),
    {
        self.left >= 0 && self.top >= 0 && self.left as i64 + self.width as i64 <= width as i64
            && self.top as i64 + self.height as i64 <= height as i64
    }
}

} // verus!
