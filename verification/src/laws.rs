//! Laws of the composition engine, stated and proved once for all inputs.

use vstd::prelude::*;

use crate::fixed::{iabs, tdiv, ENTRY_BOUND, SCALE};
use crate::mat4::{adj_apply, cof, det_s, ent, identity_m, mul_m, row_dot, translation_s, Mat4};
use crate::transform::{
    composed_world, new_s, persp_entry_s, persp_of, to_local_s, to_world_s, with_world, Transform,
};

verus! {

/// Multiplying a scalar by a positive unit and dividing it back out gives
/// the scalar unchanged, whatever its sign.
proof fn lemma_tdiv_multiples(v: int, d: int)
    requires
        d > 0,
    ensures
        tdiv(v * d, d) == v,
        tdiv(d * v, d) == v,
{
    assert(v * d == d * v) by (nonlinear_arith);
    if v >= 0 {
        vstd::arithmetic::div_mod::lemma_div_multiples_vanish(v, d);
        assert(v * d >= 0) by (nonlinear_arith)
            requires
                v >= 0,
                d > 0,
        ;
    } else {
        vstd::arithmetic::div_mod::lemma_div_multiples_vanish(-v, d);
        assert(v * d < 0 && -(v * d) == d * (-v)) by (nonlinear_arith)
            requires
                v < 0,
                d > 0,
        ;
    }
}

/// Multiplying a scalar by the unit and rescaling gives it back unchanged.
proof fn lemma_tdiv_scale(v: int)
    ensures
        tdiv(v * (SCALE as int), SCALE as int) == v,
        tdiv((SCALE as int) * v, SCALE as int) == v,
{
    lemma_tdiv_multiples(v, SCALE as int);
}

/// The identity matrix is neutral for the fixed-point matrix product, on
/// both sides: rescaling by the unit loses nothing, and in-range entries
/// pass through the clamp unchanged.
pub proof fn lemma_mul_identity(m: Mat4)
    requires
        m.wf(),
    ensures
        mul_m(m, identity_m()) == m,
        mul_m(identity_m(), m) == m,
{
    lemma_tdiv_scale(m.m11 as int);
    lemma_tdiv_scale(m.m12 as int);
    lemma_tdiv_scale(m.m13 as int);
    lemma_tdiv_scale(m.m14 as int);
    lemma_tdiv_scale(m.m21 as int);
    lemma_tdiv_scale(m.m22 as int);
    lemma_tdiv_scale(m.m23 as int);
    lemma_tdiv_scale(m.m24 as int);
    lemma_tdiv_scale(m.m31 as int);
    lemma_tdiv_scale(m.m32 as int);
    lemma_tdiv_scale(m.m33 as int);
    lemma_tdiv_scale(m.m34 as int);
    lemma_tdiv_scale(m.m41 as int);
    lemma_tdiv_scale(m.m42 as int);
    lemma_tdiv_scale(m.m43 as int);
    lemma_tdiv_scale(m.m44 as int);
}

/// Composing a freshly created node (no operations, zero pivot and
/// position, no perspective) against a fresh root yields the identity
/// world matrix.
pub proof fn lemma_compose_fresh_identity()
    ensures
        composed_world(new_s(), new_s()) == identity_m(),
{
    assert(identity_m().wf());
    lemma_mul_identity(identity_m());
}

/// Forward-mapping any in-range point through the identity world matrix
/// returns the point itself: the homogeneous divisor is exactly one.
pub proof fn lemma_to_world_identity(x: int, y: int)
    requires
        iabs(x) <= ENTRY_BOUND,
        iabs(y) <= ENTRY_BOUND,
    ensures
        to_world_s(identity_m(), x, y) == (x, y),
{
    let s = SCALE as int;
    lemma_tdiv_multiples(x, s * s);
    lemma_tdiv_multiples(y, s * s);
    assert((x * s) * s == x * (s * s)) by (nonlinear_arith);
    assert((y * s) * s == y * (s * s)) by (nonlinear_arith);
}

/// Translations compose additively: multiplying two in-range translation
/// matrices whose offsets also sum in range is exactly the translation by
/// the summed offsets.
pub proof fn lemma_translations_add(ax: int, ay: int, az: int, bx: int, by: int, bz: int)
    requires
        iabs(ax) <= ENTRY_BOUND, iabs(ay) <= ENTRY_BOUND, iabs(az) <= ENTRY_BOUND,
        iabs(bx) <= ENTRY_BOUND, iabs(by) <= ENTRY_BOUND, iabs(bz) <= ENTRY_BOUND,
        iabs(ax + bx) <= ENTRY_BOUND, iabs(ay + by) <= ENTRY_BOUND,
        iabs(az + bz) <= ENTRY_BOUND,
    ensures
        mul_m(translation_s(ax, ay, az), translation_s(bx, by, bz)) == translation_s(
            ax + bx,
            ay + by,
            az + bz,
        ),
{
    let a = translation_s(ax, ay, az);
    let b = translation_s(bx, by, bz);
    let s = SCALE as int;
    lemma_tdiv_scale(ax + bx);
    lemma_tdiv_scale(ay + by);
    lemma_tdiv_scale(az + bz);
    lemma_tdiv_scale(s);
    lemma_tdiv_scale(0);
    assert(ent(a, 0, 0) * ent(b, 0, 0) + ent(a, 0, 1) * ent(b, 1, 0) + ent(a, 0, 2) * ent(b, 2, 0) + ent(a, 0, 3) * ent(b, 3, 0) == s * s
        && ent(a, 0, 0) * ent(b, 0, 1) + ent(a, 0, 1) * ent(b, 1, 1) + ent(a, 0, 2) * ent(b, 2, 1) + ent(a, 0, 3) * ent(b, 3, 1) == 0
        && ent(a, 0, 0) * ent(b, 0, 2) + ent(a, 0, 1) * ent(b, 1, 2) + ent(a, 0, 2) * ent(b, 2, 2) + ent(a, 0, 3) * ent(b, 3, 2) == 0
        && ent(a, 0, 0) * ent(b, 0, 3) + ent(a, 0, 1) * ent(b, 1, 3) + ent(a, 0, 2) * ent(b, 2, 3) + ent(a, 0, 3) * ent(b, 3, 3) == 0) by (nonlinear_arith)
        requires
            ent(a, 0, 0) == s,
            ent(a, 0, 1) == 0,
            ent(a, 0, 2) == 0,
            ent(a, 0, 3) == 0,
            ent(b, 0, 0) == s,
            ent(b, 0, 1) == 0,
            ent(b, 0, 2) == 0,
            ent(b, 0, 3) == 0,
            ent(b, 1, 0) == 0,
            ent(b, 1, 1) == s,
            ent(b, 1, 2) == 0,
            ent(b, 1, 3) == 0,
            ent(b, 2, 0) == 0,
            ent(b, 2, 1) == 0,
            ent(b, 2, 2) == s,
            ent(b, 2, 3) == 0,
            ent(b, 3, 0) == bx,
            ent(b, 3, 1) == by,
            ent(b, 3, 2) == bz,
            ent(b, 3, 3) == s,
    ;
    assert(ent(a, 1, 0) * ent(b, 0, 0) + ent(a, 1, 1) * ent(b, 1, 0) + ent(a, 1, 2) * ent(b, 2, 0) + ent(a, 1, 3) * ent(b, 3, 0) == 0
        && ent(a, 1, 0) * ent(b, 0, 1) + ent(a, 1, 1) * ent(b, 1, 1) + ent(a, 1, 2) * ent(b, 2, 1) + ent(a, 1, 3) * ent(b, 3, 1) == s * s
        && ent(a, 1, 0) * ent(b, 0, 2) + ent(a, 1, 1) * ent(b, 1, 2) + ent(a, 1, 2) * ent(b, 2, 2) + ent(a, 1, 3) * ent(b, 3, 2) == 0
        && ent(a, 1, 0) * ent(b, 0, 3) + ent(a, 1, 1) * ent(b, 1, 3) + ent(a, 1, 2) * ent(b, 2, 3) + ent(a, 1, 3) * ent(b, 3, 3) == 0) by (nonlinear_arith)
        requires
            ent(a, 1, 0) == 0,
            ent(a, 1, 1) == s,
            ent(a, 1, 2) == 0,
            ent(a, 1, 3) == 0,
            ent(b, 0, 0) == s,
            ent(b, 0, 1) == 0,
            ent(b, 0, 2) == 0,
            ent(b, 0, 3) == 0,
            ent(b, 1, 0) == 0,
            ent(b, 1, 1) == s,
            ent(b, 1, 2) == 0,
            ent(b, 1, 3) == 0,
            ent(b, 2, 0) == 0,
            ent(b, 2, 1) == 0,
            ent(b, 2, 2) == s,
            ent(b, 2, 3) == 0,
            ent(b, 3, 0) == bx,
            ent(b, 3, 1) == by,
            ent(b, 3, 2) == bz,
            ent(b, 3, 3) == s,
    ;
    assert(ent(a, 2, 0) * ent(b, 0, 0) + ent(a, 2, 1) * ent(b, 1, 0) + ent(a, 2, 2) * ent(b, 2, 0) + ent(a, 2, 3) * ent(b, 3, 0) == 0
        && ent(a, 2, 0) * ent(b, 0, 1) + ent(a, 2, 1) * ent(b, 1, 1) + ent(a, 2, 2) * ent(b, 2, 1) + ent(a, 2, 3) * ent(b, 3, 1) == 0
        && ent(a, 2, 0) * ent(b, 0, 2) + ent(a, 2, 1) * ent(b, 1, 2) + ent(a, 2, 2) * ent(b, 2, 2) + ent(a, 2, 3) * ent(b, 3, 2) == s * s
        && ent(a, 2, 0) * ent(b, 0, 3) + ent(a, 2, 1) * ent(b, 1, 3) + ent(a, 2, 2) * ent(b, 2, 3) + ent(a, 2, 3) * ent(b, 3, 3) == 0) by (nonlinear_arith)
        requires
            ent(a, 2, 0) == 0,
            ent(a, 2, 1) == 0,
            ent(a, 2, 2) == s,
            ent(a, 2, 3) == 0,
            ent(b, 0, 0) == s,
            ent(b, 0, 1) == 0,
            ent(b, 0, 2) == 0,
            ent(b, 0, 3) == 0,
            ent(b, 1, 0) == 0,
            ent(b, 1, 1) == s,
            ent(b, 1, 2) == 0,
            ent(b, 1, 3) == 0,
            ent(b, 2, 0) == 0,
            ent(b, 2, 1) == 0,
            ent(b, 2, 2) == s,
            ent(b, 2, 3) == 0,
            ent(b, 3, 0) == bx,
            ent(b, 3, 1) == by,
            ent(b, 3, 2) == bz,
            ent(b, 3, 3) == s,
    ;
    assert(ent(a, 3, 0) * ent(b, 0, 0) + ent(a, 3, 1) * ent(b, 1, 0) + ent(a, 3, 2) * ent(b, 2, 0) + ent(a, 3, 3) * ent(b, 3, 0) == (ax + bx) * s
        && ent(a, 3, 0) * ent(b, 0, 1) + ent(a, 3, 1) * ent(b, 1, 1) + ent(a, 3, 2) * ent(b, 2, 1) + ent(a, 3, 3) * ent(b, 3, 1) == (ay + by) * s
        && ent(a, 3, 0) * ent(b, 0, 2) + ent(a, 3, 1) * ent(b, 1, 2) + ent(a, 3, 2) * ent(b, 2, 2) + ent(a, 3, 3) * ent(b, 3, 2) == (az + bz) * s
        && ent(a, 3, 0) * ent(b, 0, 3) + ent(a, 3, 1) * ent(b, 1, 3) + ent(a, 3, 2) * ent(b, 2, 3) + ent(a, 3, 3) * ent(b, 3, 3) == s * s) by (nonlinear_arith)
        requires
            ent(a, 3, 0) == ax,
            ent(a, 3, 1) == ay,
            ent(a, 3, 2) == az,
            ent(a, 3, 3) == s,
            ent(b, 0, 0) == s,
            ent(b, 0, 1) == 0,
            ent(b, 0, 2) == 0,
            ent(b, 0, 3) == 0,
            ent(b, 1, 0) == 0,
            ent(b, 1, 1) == s,
            ent(b, 1, 2) == 0,
            ent(b, 1, 3) == 0,
            ent(b, 2, 0) == 0,
            ent(b, 2, 1) == 0,
            ent(b, 2, 2) == s,
            ent(b, 2, 3) == 0,
            ent(b, 3, 0) == bx,
            ent(b, 3, 1) == by,
            ent(b, 3, 2) == bz,
            ent(b, 3, 3) == s,
    ;
    assert(row_dot(a, b, 0, 0) == s * s);
    assert(row_dot(a, b, 0, 1) == 0);
    assert(row_dot(a, b, 0, 2) == 0);
    assert(row_dot(a, b, 0, 3) == 0);
    assert(row_dot(a, b, 1, 0) == 0);
    assert(row_dot(a, b, 1, 1) == s * s);
    assert(row_dot(a, b, 1, 2) == 0);
    assert(row_dot(a, b, 1, 3) == 0);
    assert(row_dot(a, b, 2, 0) == 0);
    assert(row_dot(a, b, 2, 1) == 0);
    assert(row_dot(a, b, 2, 2) == s * s);
    assert(row_dot(a, b, 2, 3) == 0);
    assert(row_dot(a, b, 3, 0) == (ax + bx) * s);
    assert(row_dot(a, b, 3, 1) == (ay + by) * s);
    assert(row_dot(a, b, 3, 2) == (az + bz) * s);
    assert(row_dot(a, b, 3, 3) == s * s);
}

/// Round trip through the identity world matrix: the inverse mapper at
/// depth zero recovers exactly the point the forward mapper was given.
/// This is the exactly-provable record of the forward/inverse round trip;
/// for general non-singular matrices the recovery is approximate (the
/// fixed-point divides truncate) and is exercised by tests instead.
pub proof fn lemma_round_trip_identity(x: int, y: int)
    requires
        iabs(x) <= ENTRY_BOUND,
        iabs(y) <= ENTRY_BOUND,
    ensures
        to_world_s(identity_m(), x, y) == (x, y),
        to_local_s(identity_m(), x, y, 0) == Some((x, y)),
{
    lemma_to_world_identity(x, y);
    let s = SCALE as int;
    let s3 = s * s * s;
    let m = identity_m();
    assert(cof(m, 0, 0) == s3);
    assert(cof(m, 0, 1) == 0);
    assert(cof(m, 0, 2) == 0);
    assert(cof(m, 0, 3) == 0);
    assert(cof(m, 1, 0) == 0);
    assert(cof(m, 1, 1) == s3);
    assert(cof(m, 1, 2) == 0);
    assert(cof(m, 1, 3) == 0);
    assert(cof(m, 3, 0) == 0);
    assert(cof(m, 3, 1) == 0);
    assert(cof(m, 3, 2) == 0);
    assert(cof(m, 3, 3) == s3);
    assert(x * cof(m, 0, 0) == x * s3
        && y * cof(m, 0, 1) == 0
        && x * cof(m, 1, 0) == 0
        && y * cof(m, 1, 1) == y * s3
        && x * cof(m, 3, 0) == 0
        && y * cof(m, 3, 1) == 0) by (nonlinear_arith)
        requires
            cof(m, 0, 0) == s3,
            cof(m, 0, 1) == 0,
            cof(m, 1, 0) == 0,
            cof(m, 1, 1) == s3,
            cof(m, 3, 0) == 0,
            cof(m, 3, 1) == 0,
    ;
    assert(adj_apply(m, x, y, 0, 0) == x * s3);
    assert(adj_apply(m, x, y, 0, 1) == y * s3);
    assert(adj_apply(m, x, y, 0, 3) == s * s3);
    assert(det_s(m) == s * s3);
    lemma_tdiv_multiples(s3, s);
    lemma_tdiv_multiples(x, s3);
    lemma_tdiv_multiples(y, s3);
}

/// An absent injected perspective composes exactly as an explicit identity
/// perspective would: absence is treated as identity, never as an error.
pub proof fn lemma_absent_perspective_is_identity(t: Transform, parent: Transform)
    requires
        t.parent_container_camera_perspective is None,
    ensures
        composed_world(t, parent) == composed_world(
            Transform { parent_container_camera_perspective: Some(identity_m()), ..t },
            parent,
        ),
{
}

/// The injected perspective's depth-divisor entry is defined and finite for
/// every distance; at a zero distance it pins to the extreme of the
/// representable range instead of failing.
pub proof fn lemma_degenerate_distance_defined(distance: int)
    ensures
        iabs(persp_entry_s(distance)) <= ENTRY_BOUND as int,
        distance == 0 ==> persp_entry_s(distance) == -(ENTRY_BOUND as int),
{
}

/// A zero pivot adds nothing: composition then folds only the local
/// operations, the position, the injected perspective and the parent.
#[verifier::rlimit(60)]
pub proof fn lemma_zero_pivot_vanishes(t: Transform, parent: Transform)
    requires
        t.wf(),
        t.origin == (0i64, 0i64),
    ensures
        composed_world(t, parent) == mul_m(
            mul_m(
                mul_m(
                    t.local_transform,
                    translation_s(
                        t.position_relative_to_parent.0 as int,
                        t.position_relative_to_parent.1 as int,
                        0,
                    ),
                ),
                persp_of(t),
            ),
            parent.world_transform,
        ),
{
    assert(translation_s(0, 0, 0) == identity_m());
    assert(translation_s(-(t.origin.0 as int), -(t.origin.1 as int), 0) == identity_m());
    lemma_mul_identity(t.local_transform);
    assert(mul_m(mul_m(identity_m(), t.local_transform), identity_m()) == t.local_transform);
}

/// Composition is idempotent given the same parent and inputs: the world
/// matrix it writes does not feed back into what it computes, so composing
/// a node a second time rewrites the same world matrix.
pub proof fn lemma_compose_idempotent(t: Transform, parent: Transform, w: Mat4)
    ensures
        composed_world(with_world(t, w), parent) == composed_world(t, parent),
{
}

} // verus!
