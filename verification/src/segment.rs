//! The `Segment` capability contract and its quadratic Bézier implementer.
//!
//! A segment kind exposes its defining points through the spec-level
//! `model`; every transform consumes the segment and returns a new one whose
//! model is the old one transformed point by point. `rotate` is provided
//! once, at the contract level, on top of `rotate_complex`.

use vstd::prelude::*;
use crate::complex::{
    Cnum, Point, cnum, c_add, c_mul, axis_scale, cis_qt,
    can_translate, can_rotate, can_scale, can_quarter_rotate,
    lemma_unit_product_fits,
};

verus! {

/// The uniform operation set every path-segment kind supports.
///
/// `model()` lists the segment's defining points, start first and end last.
/// Each transform takes ownership of the segment and returns a new one with
/// the same per-point rule applied to every defining point.
pub trait Segment: Sized {
    /// The defining points of the segment, in order: the start point first,
    /// the end point last.
    spec fn model(&self) -> Seq<Cnum>;

    /// The segment's starting coordinate.
    fn start(&self) -> (p: Point)
        ensures
            p@ == self.model().first(),
    ;

    /// The segment's ending coordinate.
    fn end(&self) -> (p: Point)
        ensures
            p@ == self.model().last(),
    ;

    /// Shifts every defining point by the vector `(dx, dy)`.
    fn translate(self, dx: i64, dy: i64) -> (r: Self)
        requires
            forall|i: int| 0 <= i < self.model().len()
                ==> can_translate(#[trigger] self.model()[i], dx as int, dy as int),
        ensures
            r.model().len() == self.model().len(),
            forall|i: int| 0 <= i < self.model().len()
                ==> #[trigger] r.model()[i]
                    == c_add(self.model()[i], cnum(dx as int, dy as int)),
    ;

    /// Multiplies every defining point by `cis`, as complex numbers.
    ///
    /// A unit-magnitude `cis` rotates the segment; the operation neither
    /// validates nor normalizes, so a non-unit factor also scales. This is
    /// the intended low-level primitive beneath `rotate`.
    fn rotate_complex(self, cis: Point) -> (r: Self)
        requires
            forall|i: int| 0 <= i < self.model().len()
                ==> can_rotate(#[trigger] self.model()[i], cis@),
        ensures
            r.model().len() == self.model().len(),
            forall|i: int| 0 <= i < self.model().len()
                ==> #[trigger] r.model()[i] == c_mul(self.model()[i], cis@),
    ;

    /// Scales every defining point axis-wise by `factor`: x-coordinates by
    /// `factor`'s real part, y-coordinates by its imaginary part,
    /// independently.
    fn scale(self, factor: Point) -> (r: Self)
        requires
            forall|i: int| 0 <= i < self.model().len()
                ==> can_scale(#[trigger] self.model()[i], factor@),
        ensures
            r.model().len() == self.model().len(),
            forall|i: int| 0 <= i < self.model().len()
                ==> #[trigger] r.model()[i] == axis_scale(self.model()[i], factor@),
    ;

    /// Rotates the segment counter-clockwise by `quarter_turns` right
    /// angles: the exact-arithmetic angles at which (cos, sin) is an integer
    /// point. Provided once for every segment kind, on top of
    /// `rotate_complex` with the unit-magnitude factor `cis_qt`, so the
    /// result is a pure rotation by construction.
    fn rotate(self, quarter_turns: u32) -> (r: Self)
        requires
            forall|i: int| 0 <= i < self.model().len()
                ==> can_quarter_rotate(#[trigger] self.model()[i]),
        ensures
            r.model().len() == self.model().len(),
            forall|i: int| 0 <= i < self.model().len()
                ==> #[trigger] r.model()[i]
                    == c_mul(self.model()[i], cis_qt(quarter_turns as int)),
    {
        let k: u32 = quarter_turns % 4;
        let cis: Point = if k == 0 {
            Point { re: 1, im: 0 }
        } else if k == 1 {
            Point { re: 0, im: 1 }
        } else if k == 2 {
            Point { re: -1, im: 0 }
        } else {
            Point { re: 0, im: -1 }
        };
        proof {
            assert(cis@ == cis_qt(quarter_turns as int));
            assert forall|i: int| 0 <= i < self.model().len()
                implies can_rotate(#[trigger] self.model()[i], cis@) by {
                lemma_unit_product_fits(self.model()[i], cis@);
            }
        }
        self.rotate_complex(cis)
    }
}

/// A quadratic Bézier curve: start point `first`, control point `control`
/// (off the curve, shaping it), end point `last`. A degenerate segment with
/// all three points equal is legal.
#[derive(Clone, Copy, Debug, PartialEq, Eq, Structural)]
pub struct QuadraticBezierSegment {
    pub first: Point,
    pub control: Point,
    pub last: Point,
}

impl Segment for QuadraticBezierSegment {
    open spec fn model(&self) -> Seq<Cnum> {
        seq![self.first@, self.control@, self.last@]
    }

    fn start(&self) -> (p: Point) {
        self.first
    }

    fn end(&self) -> (p: Point) {
        self.last
    }

    fn translate(self, dx: i64, dy: i64) -> (r: Self) {
        proof {
            assert(can_translate(self.model()[0], dx as int, dy as int));
            assert(can_translate(self.model()[1], dx as int, dy as int));
            assert(can_translate(self.model()[2], dx as int, dy as int));
        }
        QuadraticBezierSegment {
            first: self.first.shifted(dx, dy),
            control: self.control.shifted(dx, dy),
            last: self.last.shifted(dx, dy),
        }
    }

    fn rotate_complex(self, cis: Point) -> (r: Self) {
        proof {
            assert(can_rotate(self.model()[0], cis@));
            assert(can_rotate(self.model()[1], cis@));
            assert(can_rotate(self.model()[2], cis@));
        }
        QuadraticBezierSegment {
            first: self.first.rotated_by(cis),
            control: self.control.rotated_by(cis),
            last: self.last.rotated_by(cis),
        }
    }

    fn scale(self, factor: Point) -> (r: Self) {
        proof {
            assert(can_scale(self.model()[0], factor@));
            assert(can_scale(self.model()[1], factor@));
            assert(can_scale(self.model()[2], factor@));
        }
        QuadraticBezierSegment {
            first: self.first.scaled_by(factor),
            control: self.control.scaled_by(factor),
            last: self.last.scaled_by(factor),
        }
    }
}

} // verus!
