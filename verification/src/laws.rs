//! Algebraic laws of the transforms.
//!
//! Each law is stated over segment models — the sequences of defining
//! points that the `Segment` contract pins down — or over single points,
//! exactly as the transform contracts describe them, so a caller can apply
//! a law directly to the models before and after a chain of transform
//! calls.

use vstd::prelude::*;
use vstd::arithmetic::div_mod::lemma_add_mod_noop;
use vstd::arithmetic::mul::{
    lemma_mul_is_associative, lemma_mul_is_commutative, lemma_mul_is_distributive_add,
    lemma_mul_is_distributive_add_other_way, lemma_mul_is_distributive_sub,
    lemma_mul_is_distributive_sub_other_way,
};
use crate::complex::{
    Cnum, cnum, c_add, c_mul, axis_scale, cis_qt, norm_sq, dist_sq,
};

verus! {

/// Translating by the zero vector leaves every defining point unchanged:
/// if `after` is `before` translated by `(0, 0)`, the two models are equal.
pub proof fn lemma_translate_zero_is_identity(before: Seq<Cnum>, after: Seq<Cnum>)
    requires
        after.len() == before.len(),
        forall|i: int| 0 <= i < before.len()
            ==> #[trigger] after[i] == c_add(before[i], cnum(0, 0)),
    ensures
        after =~= before,
{
}

/// Scaling by the factor (1, 1) leaves every defining point unchanged:
/// if `after` is `before` scaled axis-wise by (1, 1), the two models are
/// equal.
pub proof fn lemma_scale_one_is_identity(before: Seq<Cnum>, after: Seq<Cnum>)
    requires
        after.len() == before.len(),
        forall|i: int| 0 <= i < before.len()
            ==> #[trigger] after[i] == axis_scale(before[i], cnum(1, 1)),
    ensures
        after =~= before,
{
}

/// The quarter-turn unit factors compose additively: `a` quarter turns
/// followed by `b` quarter turns is the factor of `a + b` quarter turns.
pub proof fn lemma_cis_qt_add(a: int, b: int)
    ensures
        c_mul(cis_qt(a), cis_qt(b)) == cis_qt(a + b),
{
    lemma_add_mod_noop(a, b, 4);
}

/// The effect of multiplying a point by each of the four quarter-turn unit
/// factors, written without products: identity, left turn, half turn,
/// right turn.
pub proof fn lemma_c_mul_unit_values(p: Cnum, c: Cnum)
    requires
        c == cnum(1, 0) || c == cnum(0, 1) || c == cnum(-1, 0) || c == cnum(0, -1),
    ensures
        c == cnum(1, 0) ==> c_mul(p, c) == p,
        c == cnum(0, 1) ==> c_mul(p, c) == cnum(-p.im, p.re),
        c == cnum(-1, 0) ==> c_mul(p, c) == cnum(-p.re, -p.im),
        c == cnum(0, -1) ==> c_mul(p, c) == cnum(p.im, -p.re),
{
    let a = p.re;
    let b = p.im;
    let cr = c.re;
    let ci = c.im;
    assert((cr == 1 && ci == 0 ==> a * cr - b * ci == a && a * ci + b * cr == b)
        && (cr == 0 && ci == 1 ==> a * cr - b * ci == -b && a * ci + b * cr == a)
        && (cr == -1 && ci == 0 ==> a * cr - b * ci == -a && a * ci + b * cr == -b)
        && (cr == 0 && ci == -1 ==> a * cr - b * ci == b && a * ci + b * cr == -a))
        by (nonlinear_arith);
}

/// Complex multiplication is associative: multiplying by two factors in
/// turn is multiplying by their product. So two `rotate_complex` calls
/// compose into one whose factor is the complex product of the two.
pub proof fn lemma_c_mul_assoc(x: Cnum, y: Cnum, z: Cnum)
    ensures
        c_mul(c_mul(x, y), z) == c_mul(x, c_mul(y, z)),
{
    let xr = x.re;
    let xi = x.im;
    let yr = y.re;
    let yi = y.im;
    let zr = z.re;
    let zi = z.im;
    lemma_mul_is_distributive_sub_other_way(zr, xr * yr, xi * yi);
    lemma_mul_is_distributive_add_other_way(zi, xr * yi, xi * yr);
    lemma_mul_is_distributive_sub_other_way(zi, xr * yr, xi * yi);
    lemma_mul_is_distributive_add_other_way(zr, xr * yi, xi * yr);
    lemma_mul_is_distributive_sub(xr, yr * zr, yi * zi);
    lemma_mul_is_distributive_add(xi, yr * zi, yi * zr);
    lemma_mul_is_distributive_add(xr, yr * zi, yi * zr);
    lemma_mul_is_distributive_sub(xi, yr * zr, yi * zi);
    lemma_mul_is_associative(xr, yr, zr);
    lemma_mul_is_associative(xr, yi, zi);
    lemma_mul_is_associative(xi, yr, zi);
    lemma_mul_is_associative(xi, yi, zr);
    lemma_mul_is_associative(xr, yr, zi);
    lemma_mul_is_associative(xr, yi, zr);
    lemma_mul_is_associative(xi, yr, zr);
    lemma_mul_is_associative(xi, yi, zi);
}

/// Multiplying by two quarter-turn factors in turn is multiplying by the
/// factor of the summed turns.
pub proof fn lemma_c_mul_cis_assoc(p: Cnum, a: int, b: int)
    ensures
        c_mul(c_mul(p, cis_qt(a)), cis_qt(b)) == c_mul(p, cis_qt(a + b)),
{
    lemma_c_mul_assoc(p, cis_qt(a), cis_qt(b));
    lemma_cis_qt_add(a, b);
}

/// Rotation composition: rotating every point by `a` quarter turns and
/// then by `b` quarter turns is rotating it by `a + b` quarter turns.
/// `mid` is the model after the first rotation, `after` after the second.
pub proof fn lemma_rotate_composition(before: Seq<Cnum>, mid: Seq<Cnum>, after: Seq<Cnum>, a: int, b: int)
    requires
        mid.len() == before.len(),
        after.len() == mid.len(),
        forall|i: int| 0 <= i < before.len()
            ==> #[trigger] mid[i] == c_mul(before[i], cis_qt(a)),
        forall|i: int| 0 <= i < mid.len()
            ==> #[trigger] after[i] == c_mul(mid[i], cis_qt(b)),
    ensures
        after.len() == before.len(),
        forall|i: int| 0 <= i < before.len()
            ==> #[trigger] after[i] == c_mul(before[i], cis_qt(a + b)),
{
    assert forall|i: int| 0 <= i < before.len()
        implies #[trigger] after[i] == c_mul(before[i], cis_qt(a + b)) by {
        lemma_c_mul_cis_assoc(before[i], a, b);
    }
}

/// A product of two products, regrouped: the first factors together, the
/// second factors together.
proof fn lemma_mul_regroup(a: int, b: int, x: int, y: int)
    ensures
        (a * x) * (b * y) == (a * b) * (x * y),
{
    assert((a * x) * (b * y) == (a * b) * (x * y)) by (nonlinear_arith);
}

/// The two-squares identity behind rotation: the squared magnitude of a
/// complex product is the product of the squared magnitudes.
proof fn lemma_two_squares_identity(dr: int, di: int, cr: int, ci: int)
    ensures
        (dr * cr - di * ci) * (dr * cr - di * ci) + (dr * ci + di * cr) * (dr * ci + di * cr)
            == (cr * cr + ci * ci) * (dr * dr + di * di),
{
    let a = dr * cr;
    let b = di * ci;
    let c = dr * ci;
    let d = di * cr;
    lemma_mul_is_distributive_sub_other_way(a - b, a, b);
    lemma_mul_is_distributive_sub(a, a, b);
    lemma_mul_is_distributive_sub(b, a, b);
    lemma_mul_is_distributive_add_other_way(c + d, c, d);
    lemma_mul_is_distributive_add(c, c, d);
    lemma_mul_is_distributive_add(d, c, d);
    lemma_mul_is_distributive_add_other_way(dr * dr + di * di, cr * cr, ci * ci);
    lemma_mul_is_distributive_add(cr * cr, dr * dr, di * di);
    lemma_mul_is_distributive_add(ci * ci, dr * dr, di * di);
    lemma_mul_regroup(dr, dr, cr, cr);
    lemma_mul_regroup(di, di, ci, ci);
    lemma_mul_regroup(dr, dr, ci, ci);
    lemma_mul_regroup(di, di, cr, cr);
    lemma_mul_regroup(dr, di, cr, ci);
    lemma_mul_regroup(dr, di, ci, cr);
    lemma_mul_is_commutative(a, b);
    lemma_mul_is_commutative(c, d);
    lemma_mul_is_commutative(ci, cr);
    lemma_mul_is_commutative(dr * dr, cr * cr);
    lemma_mul_is_commutative(di * di, ci * ci);
    lemma_mul_is_commutative(dr * dr, ci * ci);
    lemma_mul_is_commutative(di * di, cr * cr);
}

/// Multiplying two points by the same complex factor scales their squared
/// distance by the factor's squared magnitude. In particular a non-unit
/// factor handed to `rotate_complex` really does scale the segment.
pub proof fn lemma_rotation_scales_dist_sq(p: Cnum, q: Cnum, c: Cnum)
    ensures
        dist_sq(c_mul(p, c), c_mul(q, c)) == norm_sq(c) * dist_sq(p, q),
{
    let dr = p.re - q.re;
    let di = p.im - q.im;
    let cr = c.re;
    let ci = c.im;
    lemma_mul_is_distributive_sub_other_way(cr, p.re, q.re);
    lemma_mul_is_distributive_sub_other_way(ci, p.im, q.im);
    lemma_mul_is_distributive_sub_other_way(ci, p.re, q.re);
    lemma_mul_is_distributive_sub_other_way(cr, p.im, q.im);
    assert(c_mul(p, c).re - c_mul(q, c).re == dr * cr - di * ci);
    assert(c_mul(p, c).im - c_mul(q, c).im == dr * ci + di * cr);
    lemma_two_squares_identity(dr, di, cr, ci);
}

/// Every quarter-turn factor has unit magnitude, so `rotate` always hands
/// `rotate_complex` a unit-magnitude factor.
pub proof fn lemma_cis_qt_is_unit(k: int)
    ensures
        norm_sq(cis_qt(k)) == 1,
{
}

/// Rotating two points by the same whole number of quarter turns leaves
/// their squared distance unchanged: a pure rotation preserves pairwise
/// distances.
pub proof fn lemma_cis_rotation_preserves_dist_sq(p: Cnum, q: Cnum, k: int)
    ensures
        dist_sq(c_mul(p, cis_qt(k)), c_mul(q, cis_qt(k))) == dist_sq(p, q),
{
    lemma_rotation_scales_dist_sq(p, q, cis_qt(k));
    lemma_cis_qt_is_unit(k);
}

/// Rotation preserves the distance between start and end: if `after` is
/// `before` rotated by `k` quarter turns, the squared distance between the
/// first and last defining points is unchanged.
pub proof fn lemma_rotate_preserves_endpoint_dist(before: Seq<Cnum>, after: Seq<Cnum>, k: int)
    requires
        before.len() >= 1,
        after.len() == before.len(),
        forall|i: int| 0 <= i < before.len()
            ==> #[trigger] after[i] == c_mul(before[i], cis_qt(k)),
    ensures
        dist_sq(after.first(), after.last()) == dist_sq(before.first(), before.last()),
{
    lemma_cis_rotation_preserves_dist_sq(before.first(), before.last(), k);
}

/// Translation is additive: translating by `(dx1, dy1)` and then by
/// `(dx2, dy2)` is translating by the componentwise sum, on every point.
pub proof fn lemma_translate_additive(before: Seq<Cnum>, mid: Seq<Cnum>, after: Seq<Cnum>, d1: Cnum, d2: Cnum)
    requires
        mid.len() == before.len(),
        after.len() == mid.len(),
        forall|i: int| 0 <= i < before.len()
            ==> #[trigger] mid[i] == c_add(before[i], d1),
        forall|i: int| 0 <= i < mid.len()
            ==> #[trigger] after[i] == c_add(mid[i], d2),
    ensures
        after.len() == before.len(),
        forall|i: int| 0 <= i < before.len()
            ==> #[trigger] after[i] == c_add(before[i], c_add(d1, d2)),
{
}

/// Scaling treats the axes independently: scaling by the factor (2, 1)
/// doubles the x-coordinate of every point and leaves its y-coordinate
/// unchanged — unlike complex multiplication by (2, 1), which would mix
/// the axes on every point but the origin.
pub proof fn lemma_scale_two_one(p: Cnum)
    ensures
        axis_scale(p, cnum(2, 1)) == cnum(2 * p.re, p.im),
        c_mul(p, cnum(2, 1)) != axis_scale(p, cnum(2, 1)) || p == cnum(0, 0),
{
}

} // verus!
