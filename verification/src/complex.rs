//! Points as complex numbers with integer coordinates.
//!
//! The spec-level model is [`Cnum`], a complex number over `int`; the
//! executable type is [`Point`], a complex number over `i64` whose view is a
//! `Cnum`. Rotation is complex multiplication; scaling is deliberately not:
//! it acts on the two axes independently.

use vstd::prelude::*;

verus! {

/// Mathematical model of a point: a complex number with unbounded integer
/// real and imaginary parts (`re` is the x-coordinate, `im` the y-coordinate).
pub struct Cnum {
    pub re: int,
    pub im: int,
}

/// Builds a [`Cnum`] from its two coordinates.
pub open spec fn cnum(re: int, im: int) -> Cnum {
    Cnum { re, im }
}

/// Complex addition: shifts a point by the vector `b`.
pub open spec fn c_add(a: Cnum, b: Cnum) -> Cnum {
    Cnum { re: a.re + b.re, im: a.im + b.im }
}

/// Complex multiplication. Multiplying by a unit-magnitude factor is a pure
/// rotation; a non-unit factor also scales, by design.
pub open spec fn c_mul(a: Cnum, b: Cnum) -> Cnum {
    Cnum {
        re: a.re * b.re - a.im * b.im,
        im: a.re * b.im + a.im * b.re,
    }
}

/// Axis-wise scaling: each coordinate of `a` is multiplied by the matching
/// coordinate of `f`, the two axes independently. This is deliberately not
/// complex multiplication.
pub open spec fn axis_scale(a: Cnum, f: Cnum) -> Cnum {
    Cnum { re: a.re * f.re, im: a.im * f.im }
}

/// Squared magnitude of a complex number.
pub open spec fn norm_sq(a: Cnum) -> int {
    a.re * a.re + a.im * a.im
}

/// Squared Euclidean distance between the points `a` and `b`.
pub open spec fn dist_sq(a: Cnum, b: Cnum) -> int {
    (a.re - b.re) * (a.re - b.re) + (a.im - b.im) * (a.im - b.im)
}

/// The unit complex number of `k` quarter turns counter-clockwise: the exact
/// value of (cos, sin) at an angle of `k` right angles.
pub open spec fn cis_qt(k: int) -> Cnum {
    let m = k % 4;
    if m == 0 {
        cnum(1, 0)
    } else if m == 1 {
        cnum(0, 1)
    } else if m == 2 {
        cnum(-1, 0)
    } else {
        cnum(0, -1)
    }
}

/// Whether the unbounded integer `v` fits the executable coordinate type.
pub open spec fn fits_i64(v: int) -> bool {
    i64::MIN <= v <= i64::MAX
}

/// Both coordinates of the translated point fit in `i64`.
pub open spec fn can_translate(p: Cnum, dx: int, dy: int) -> bool {
    fits_i64(p.re + dx) && fits_i64(p.im + dy)
}

/// Both coordinates of the complex product fit in `i64`.
pub open spec fn can_rotate(p: Cnum, c: Cnum) -> bool {
    fits_i64(c_mul(p, c).re) && fits_i64(c_mul(p, c).im)
}

/// Both coordinates of the point and their negations fit in `i64`, so the
/// point rotated by any whole number of quarter turns fits too.
pub open spec fn can_quarter_rotate(p: Cnum) -> bool {
    fits_i64(p.re) && fits_i64(p.im) && fits_i64(-p.re) && fits_i64(-p.im)
}

/// Both coordinates of the scaled point fit in `i64`.
pub open spec fn can_scale(p: Cnum, f: Cnum) -> bool {
    fits_i64(p.re * f.re) && fits_i64(p.im * f.im)
}

/// Multiplying a point whose coordinates and their negations fit in `i64` by
/// any of the four quarter-turn unit factors yields a point that fits too.
pub proof fn lemma_unit_product_fits(p: Cnum, c: Cnum)
    requires
        can_quarter_rotate(p),
        c == cnum(1, 0) || c == cnum(0, 1) || c == cnum(-1, 0) || c == cnum(0, -1),
    ensures
        can_rotate(p, c),
{
    let a = p.re;
    let b = p.im;
    let cr = c.re;
    let ci = c.im;
    assert(-0x8000_0000_0000_0000 <= a * cr - b * ci <= 0x7fff_ffff_ffff_ffff
        && -0x8000_0000_0000_0000 <= a * ci + b * cr <= 0x7fff_ffff_ffff_ffff)
        by (nonlinear_arith)
        requires
            -0x7fff_ffff_ffff_ffff <= a <= 0x7fff_ffff_ffff_ffff,
            -0x7fff_ffff_ffff_ffff <= b <= 0x7fff_ffff_ffff_ffff,
            (cr == 1 && ci == 0) || (cr == 0 && ci == 1)
                || (cr == -1 && ci == 0) || (cr == 0 && ci == -1),
    ;
}

/// Executable 2D point, stored as a complex number: `re` is the x-coordinate
/// and `im` the y-coordinate. Also used as a rotation or scale factor.
#[derive(Clone, Copy, Debug, PartialEq, Eq, Structural)]
pub struct Point {
    pub re: i64,
    pub im: i64,
}

impl View for Point {
    type V = Cnum;

    open spec fn view(&self) -> Cnum {
        Cnum { re: self.re as int, im: self.im as int }
    }
}

impl Point {
    /// Builds the point with x-coordinate `re` and y-coordinate `im`.
    pub fn new(re: i64, im: i64) -> (p: Point)
        ensures
            p@ == cnum(re as int, im as int),
    {
        Point { re, im }
    }

    /// The point shifted by the vector `(dx, dy)`.
    pub fn shifted(self, dx: i64, dy: i64) -> (r: Point)
        requires
            can_translate(self@, dx as int, dy as int),
        ensures
            r@ == c_add(self@, cnum(dx as int, dy as int)),
    {
        Point { re: self.re + dx, im: self.im + dy }
    }

    /// The complex product of this point and `c`.
    ///
    /// The products of coordinates are taken in 128-bit arithmetic, so only
    /// the two final coordinates must fit in `i64`.
    pub fn rotated_by(self, c: Point) -> (r: Point)
        requires
            can_rotate(self@, c@),
        ensures
            r@ == c_mul(self@, c@),
    {
        proof {
            let a = self.re as int;
            let b = self.im as int;
            let cr = c.re as int;
            let ci = c.im as int;
            assert(a * cr <= 0x4000_0000_0000_0000_0000_0000_0000_0000
                && -0x4000_0000_0000_0000_0000_0000_0000_0000 <= a * cr) by (nonlinear_arith)
                requires
                    -0x8000_0000_0000_0000 <= a <= 0x7fff_ffff_ffff_ffff,
                    -0x8000_0000_0000_0000 <= cr <= 0x7fff_ffff_ffff_ffff,
            ;
            assert(b * ci <= 0x4000_0000_0000_0000_0000_0000_0000_0000
                && -0x4000_0000_0000_0000_0000_0000_0000_0000 <= b * ci) by (nonlinear_arith)
                requires
                    -0x8000_0000_0000_0000 <= b <= 0x7fff_ffff_ffff_ffff,
                    -0x8000_0000_0000_0000 <= ci <= 0x7fff_ffff_ffff_ffff,
            ;
            assert(a * ci <= 0x4000_0000_0000_0000_0000_0000_0000_0000
                && -0x4000_0000_0000_0000_0000_0000_0000_0000 <= a * ci) by (nonlinear_arith)
                requires
                    -0x8000_0000_0000_0000 <= a <= 0x7fff_ffff_ffff_ffff,
                    -0x8000_0000_0000_0000 <= ci <= 0x7fff_ffff_ffff_ffff,
            ;
            assert(b * cr <= 0x4000_0000_0000_0000_0000_0000_0000_0000
                && -0x4000_0000_0000_0000_0000_0000_0000_0000 <= b * cr) by (nonlinear_arith)
                requires
                    -0x8000_0000_0000_0000 <= b <= 0x7fff_ffff_ffff_ffff,
                    -0x8000_0000_0000_0000 <= cr <= 0x7fff_ffff_ffff_ffff,
            ;
        }
        let re_wide: i128 = (self.re as i128) * (c.re as i128) - (self.im as i128) * (c.im as i128);
        let im_wide: i128 = (self.re as i128) * (c.im as i128) + (self.im as i128) * (c.re as i128);
        Point { re: re_wide as i64, im: im_wide as i64 }
    }

    /// The point scaled axis-wise by `f`.
    pub fn scaled_by(self, f: Point) -> (r: Point)
        requires
            can_scale(self@, f@),
        ensures
            r@ == axis_scale(self@, f@),
    {
        Point { re: self.re * f.re, im: self.im * f.im }
    }
}

} // verus!
