//! The five-point landmark shape and the eye corners read from it.

use vstd::prelude::*;
use crate::error::DetectError;

verus! {

/// The landmarks of a five-point face shape, in the order in which a shape
/// lists them.
#[derive(Clone, Copy, Debug, PartialEq, Eq, Structural)]
pub enum Shape5 {
    LeftOuterEyeCorner,
    LeftInnerEyeCorner,
    RightOuterEyeCorner,
    RightInnerEyeCorner,
    Nose,
}

/// The four eye corners of a shape.
#[derive(Clone, Copy, Debug)]
pub struct EyeCorners<P> {
    pub left_outer: P,
    pub left_inner: P,
    pub right_outer: P,
    pub right_inner: P,
}

impl Shape5 {
    /// Number of points in a shape.
    pub open spec fn spec_size() -> nat {
        5
    }

    /// Position of a landmark within a shape.
    pub open spec fn spec_index(self) -> nat {
        match self {
            Shape5::LeftOuterEyeCorner => 0,
            Shape5::LeftInnerEyeCorner => 1,
            Shape5::RightOuterEyeCorner => 2,
            Shape5::RightInnerEyeCorner => 3,
            Shape5::Nose => 4,
        }
    }

    /// Number of points in a shape.
    pub fn size() -> (n: usize)
        ensures
            n == Self::spec_size(),
    {
        5
    }

    /// Position of a landmark within a shape.
    pub fn index(self) -> (i: usize)
        ensures
            i == self.spec_index(),
            i < Self::spec_size(),
    {
        match self {
            Shape5::LeftOuterEyeCorner => 0,
            Shape5::LeftInnerEyeCorner => 1,
            Shape5::RightOuterEyeCorner => 2,
            Shape5::RightInnerEyeCorner => 3,
            Shape5::Nose => 4,
        }
    }

    /// The eye corners of a shape, each taken from its place in the shape.
    /// A shape that does not have exactly five points is refused: it is
    /// neither cut nor filled up.
    pub fn eye_corners<P: Copy>(shape: &[P]) -> (r: Result<EyeCorners<P>, DetectError>)
        ensures
            match r {
                Ok(corners) => {
                    &&& shape@.len() == Self::spec_size()
                    &&& corners.left_outer == shape@[Shape5::LeftOuterEyeCorner.spec_index() as int]
                    &&& corners.left_inner == shape@[Shape5::LeftInnerEyeCorner.spec_index() as int]
                    &&& corners.right_outer == shape@[Shape5::RightOuterEyeCorner.spec_index() as int]
                    &&& corners.right_inner == shape@[Shape5::RightInnerEyeCorner.spec_index() as int]
                },
                Err(DetectError::ShapeContract { len }) => len == shape@.len() && len
                    != Self::spec_size(),
                Err(_) => false,
            },
    {
        if shape.len() != Self::size() {
            return Err(DetectError::ShapeContract { len: shape.len() });
        }
        Ok(
            EyeCorners {
                left_outer: shape[Shape5::LeftOuterEyeCorner.index()],
                left_inner: shape[Shape5::LeftInnerEyeCorner.index()],
                right_outer: shape[Shape5::RightOuterEyeCorner.index()],
                right_inner: shape[Shape5::RightInnerEyeCorner.index()],
            },
        )
    }
}

} // verus!
