//! The record of one face.

use vstd::prelude::*;
use crate::detection::Point;
use crate::error::DetectError;
use crate::rect::Rect;
use crate::shape::Shape5;
use crate::single::Single;

verus! {

/// One face: its score, where it is, its five landmarks and its two pupils.
#[derive(Debug)]
pub struct Face {
    score: Single,
    rect: Rect,
    shape: Vec<Point>,
    left_pupil: Point,
    right_pupil: Point,
}

impl Face {
    #[verifier::type_invariant]
    spec fn well_formed(self) -> bool {
        self.shape@.len() == Shape5::spec_size()
    }

    pub closed spec fn spec_score(self) -> Single {
        self.score
    }

    pub closed spec fn spec_rect(self) -> Rect {
        self.rect
    }

    pub closed spec fn spec_shape(self) -> Seq<Point> {
        self.shape@
    }

    pub closed spec fn spec_pupils(self) -> (Point, Point) {
        (self.left_pupil, self.right_pupil)
    }

    /// The record of a face with the given parts. A shape that does not have
    /// exactly five points is refused.
    pub fn new(score: Single, rect: Rect, shape: Vec<Point>, pupils: (Point, Point)) -> (r: Result<
        Face,
        DetectError,
    >)
        ensures
            match r {
                Ok(face) => {
                    &&& shape@.len() == Shape5::spec_size()
                    &&& face.spec_score() == score
                    &&& face.spec_rect() == rect
                    &&& face.spec_shape() == shape@
                    &&& face.spec_pupils() == pupils
                },
                Err(DetectError::ShapeContract { len }) => len == shape@.len() && len
                    != Shape5::spec_size(),
                Err(_) => false,
            },
    {
        if shape.len() == Shape5::size() {
            Ok(Face { score, rect, shape, left_pupil: pupils.0, right_pupil: pupils.1 })
        } else {
            Err(DetectError::ShapeContract { len: shape.len() })
        }
    }

    pub fn score(&self) -> (r: Single)
        ensures
            r == self.spec_score(),
    {
        self.score
    }

    pub fn rect(&self) -> (r: Rect)
        ensures
            r == self.spec_rect(),
    {
        self.rect
    }

    /// The five landmarks, in the order of `Shape5`.
    pub fn shape(&self) -> (r: &[Point])
        ensures
            r@ == self.spec_shape(),
            r@.len() == Shape5::spec_size(),
    {
        proof {
            use_type_invariant(self);
        }
        self.shape.as_slice()
    }

    /// The left and the right pupil.
    pub fn pupils(&self) -> (r: (Point, Point))
        ensures
            r == self.spec_pupils(),
    {
        (self.left_pupil, self.right_pupil)
    }
}

} // verus!
