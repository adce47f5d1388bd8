//! 4x4 homogeneous matrices over fixed-point scalars.
//!
//! Points are row vectors: applying a matrix computes `p * M`, and
//! `mat_mul(a, b)` is the product `a * b`, so `p * mat_mul(a, b)` applies
//! `a` first and `b` second. Entries are named `m11..m44` (row then column). Every
//! constructor and product clamps entries into `[-ENTRY_BOUND, ENTRY_BOUND]`,
//! so all intermediate sums of products stay within `i128`.

use vstd::prelude::*;

use crate::fixed::{clamp_i64, clamp_s, div_t, iabs, tdiv, ENTRY_BOUND, SCALE};

verus! {

/// A 4x4 matrix of fixed-point scalars, row-major, row-vector convention.
#[derive(Clone, Copy, Debug, PartialEq, Eq, Structural)]
pub struct Mat4 {
    pub m11: i64, pub m12: i64, pub m13: i64, pub m14: i64,
    pub m21: i64, pub m22: i64, pub m23: i64, pub m24: i64,
    pub m31: i64, pub m32: i64, pub m33: i64, pub m34: i64,
    pub m41: i64, pub m42: i64, pub m43: i64, pub m44: i64,
}

/// Entry at row `r`, column `c` (zero-based), as a mathematical integer.
pub open spec fn ent(m: Mat4, r: int, c: int) -> int {
    if r == 0 {
        if c == 0 { m.m11 as int } else if c == 1 { m.m12 as int }
        else if c == 2 { m.m13 as int } else { m.m14 as int }
    } else if r == 1 {
        if c == 0 { m.m21 as int } else if c == 1 { m.m22 as int }
        else if c == 2 { m.m23 as int } else { m.m24 as int }
    } else if r == 2 {
        if c == 0 { m.m31 as int } else if c == 1 { m.m32 as int }
        else if c == 2 { m.m33 as int } else { m.m34 as int }
    } else {
        if c == 0 { m.m41 as int } else if c == 1 { m.m42 as int }
        else if c == 2 { m.m43 as int } else { m.m44 as int }
    }
}

impl Mat4 {
    /// Every entry lies in the representable range.
    pub open spec fn wf(self) -> bool {
        &&& iabs(self.m11 as int) <= ENTRY_BOUND && iabs(self.m12 as int) <= ENTRY_BOUND
        &&& iabs(self.m13 as int) <= ENTRY_BOUND && iabs(self.m14 as int) <= ENTRY_BOUND
        &&& iabs(self.m21 as int) <= ENTRY_BOUND && iabs(self.m22 as int) <= ENTRY_BOUND
        &&& iabs(self.m23 as int) <= ENTRY_BOUND && iabs(self.m24 as int) <= ENTRY_BOUND
        &&& iabs(self.m31 as int) <= ENTRY_BOUND && iabs(self.m32 as int) <= ENTRY_BOUND
        &&& iabs(self.m33 as int) <= ENTRY_BOUND && iabs(self.m34 as int) <= ENTRY_BOUND
        &&& iabs(self.m41 as int) <= ENTRY_BOUND && iabs(self.m42 as int) <= ENTRY_BOUND
        &&& iabs(self.m43 as int) <= ENTRY_BOUND && iabs(self.m44 as int) <= ENTRY_BOUND
    }
}

/// The identity matrix (diagonal of 1.0 in fixed-point units).
pub open spec fn identity_m() -> Mat4 {
    Mat4 {
        m11: SCALE, m12: 0, m13: 0, m14: 0,
        m21: 0, m22: SCALE, m23: 0, m24: 0,
        m31: 0, m32: 0, m33: SCALE, m34: 0,
        m41: 0, m42: 0, m43: 0, m44: SCALE,
    }
}

/// Translation by `(tx, ty, tz)`, clamped into range.
pub open spec fn translation_s(tx: int, ty: int, tz: int) -> Mat4 {
    Mat4 {
        m11: SCALE, m12: 0, m13: 0, m14: 0,
        m21: 0, m22: SCALE, m23: 0, m24: 0,
        m31: 0, m32: 0, m33: SCALE, m34: 0,
        m41: clamp_s(tx) as i64, m42: clamp_s(ty) as i64, m43: clamp_s(tz) as i64, m44: SCALE,
    }
}

/// Non-uniform scale by `(sx, sy, sz)`, clamped into range.
pub open spec fn scale_s(sx: int, sy: int, sz: int) -> Mat4 {
    Mat4 {
        m11: clamp_s(sx) as i64, m12: 0, m13: 0, m14: 0,
        m21: 0, m22: clamp_s(sy) as i64, m23: 0, m24: 0,
        m31: 0, m32: 0, m33: clamp_s(sz) as i64, m34: 0,
        m41: 0, m42: 0, m43: 0, m44: SCALE,
    }
}

/// Fixed-point product of two scalars: `a * b / SCALE`, truncating.
pub open spec fn fmul(a: int, b: int) -> int {
    tdiv(a * b, SCALE as int)
}

/// Dot product of row `r` of `a` with column `c` of `b`.
pub open spec fn row_dot(a: Mat4, b: Mat4, r: int, c: int) -> int {
    ent(a, r, 0) * ent(b, 0, c) + ent(a, r, 1) * ent(b, 1, c) + ent(a, r, 2) * ent(b, 2, c)
        + ent(a, r, 3) * ent(b, 3, c)
}

/// Entry `(r, c)` of the matrix product, rescaled and clamped.
pub open spec fn mul_e(a: Mat4, b: Mat4, r: int, c: int) -> int {
    clamp_s(tdiv(row_dot(a, b, r, c), SCALE as int))
}

/// The matrix product `a * b` (row-vector convention: `a` applies first).
pub open spec fn mul_m(a: Mat4, b: Mat4) -> Mat4 {
    Mat4 {
        m11: mul_e(a, b, 0, 0) as i64, m12: mul_e(a, b, 0, 1) as i64,
        m13: mul_e(a, b, 0, 2) as i64, m14: mul_e(a, b, 0, 3) as i64,
        m21: mul_e(a, b, 1, 0) as i64, m22: mul_e(a, b, 1, 1) as i64,
        m23: mul_e(a, b, 1, 2) as i64, m24: mul_e(a, b, 1, 3) as i64,
        m31: mul_e(a, b, 2, 0) as i64, m32: mul_e(a, b, 2, 1) as i64,
        m33: mul_e(a, b, 2, 2) as i64, m34: mul_e(a, b, 2, 3) as i64,
        m41: mul_e(a, b, 3, 0) as i64, m42: mul_e(a, b, 3, 1) as i64,
        m43: mul_e(a, b, 3, 2) as i64, m44: mul_e(a, b, 3, 3) as i64,
    }
}

/// Rotation about the axis `(x, y, z)` whose sine is `s` and cosine is `c`
/// (all fixed-point). The axis is expected to be a unit vector; the entries
/// follow the axis-angle expansion `1 - (sum of other squares) * (1 - cos)`
/// on the diagonal and `product * (1 - cos) +- other * sin` off it.
pub open spec fn rotation_s(x: int, y: int, z: int, s: int, c: int) -> Mat4 {
    let omc = SCALE - c;
    Mat4 {
        m11: clamp_s(SCALE - fmul(fmul(y, y) + fmul(z, z), omc)) as i64,
        m12: clamp_s(fmul(fmul(x, y), omc) + fmul(z, s)) as i64,
        m13: clamp_s(fmul(fmul(x, z), omc) - fmul(y, s)) as i64,
        m14: 0,
        m21: clamp_s(fmul(fmul(x, y), omc) - fmul(z, s)) as i64,
        m22: clamp_s(SCALE - fmul(fmul(x, x) + fmul(z, z), omc)) as i64,
        m23: clamp_s(fmul(fmul(y, z), omc) + fmul(x, s)) as i64,
        m24: 0,
        m31: clamp_s(fmul(fmul(x, z), omc) + fmul(y, s)) as i64,
        m32: clamp_s(fmul(fmul(y, z), omc) - fmul(x, s)) as i64,
        m33: clamp_s(SCALE - fmul(fmul(x, x) + fmul(y, y), omc)) as i64,
        m34: 0,
        m41: 0, m42: 0, m43: 0, m44: SCALE,
    }
}

/// Fixed-point product of two in-range scalars.
fn fmul_cc(a: i64, b: i64) -> (r: i64)
    requires
        iabs(a as int) <= ENTRY_BOUND,
        iabs(b as int) <= ENTRY_BOUND,
    ensures
        r as int == fmul(a as int, b as int),
        iabs(r as int) <= 0x1000_0000_0000,
{
    proof {
        assert(iabs(a as int * b as int) <= 0x1000_0000_0000_0000) by (nonlinear_arith)
            requires
                iabs(a as int) <= 0x4000_0000,
                iabs(b as int) <= 0x4000_0000,
        ;
        vstd::arithmetic::div_mod::lemma_div_is_ordered(
            iabs(a as int * b as int),
            0x1000_0000_0000_0000,
            SCALE as int,
        );
    }
    let p: i128 = (a as i128) * (b as i128);
    div_t(p, SCALE as i128) as i64
}

/// Fixed-point product of a wide scalar with a `1 - cos` style factor.
fn fmul_omc(a: i64, b: i64) -> (r: i64)
    requires
        iabs(a as int) <= 0x2000_0000_0000,
        iabs(b as int) <= 2 * SCALE,
    ensures
        r as int == fmul(a as int, b as int),
        iabs(r as int) <= 0x4000_0000_0000,
{
    proof {
        assert(iabs(a as int * b as int) <= 0x2_0000_0000_0000_0000) by (nonlinear_arith)
            requires
                iabs(a as int) <= 0x2000_0000_0000,
                iabs(b as int) <= 0x10_0000,
        ;
        vstd::arithmetic::div_mod::lemma_div_is_ordered(
            iabs(a as int * b as int),
            0x2_0000_0000_0000_0000,
            SCALE as int,
        );
    }
    let p: i128 = (a as i128) * (b as i128);
    div_t(p, SCALE as i128) as i64
}

/// Rotation matrix from a unit axis and the angle's sine and cosine.
pub fn rotation_mat(x: i64, y: i64, z: i64, s: i64, c: i64) -> (r: Mat4)
    requires
        iabs(x as int) <= ENTRY_BOUND,
        iabs(y as int) <= ENTRY_BOUND,
        iabs(z as int) <= ENTRY_BOUND,
        iabs(s as int) <= SCALE,
        iabs(c as int) <= SCALE,
    ensures
        r == rotation_s(x as int, y as int, z as int, s as int, c as int),
        r.wf(),
{
    let omc: i64 = SCALE - c;
    let xx = fmul_cc(x, x);
    let yy = fmul_cc(y, y);
    let zz = fmul_cc(z, z);
    let xy = fmul_cc(x, y);
    let xz = fmul_cc(x, z);
    let yz = fmul_cc(y, z);
    let xs = fmul_cc(x, s);
    let ys = fmul_cc(y, s);
    let zs = fmul_cc(z, s);
    Mat4 {
        m11: clamp_i64(SCALE as i128 - fmul_omc(yy + zz, omc) as i128),
        m12: clamp_i64(fmul_omc(xy, omc) as i128 + zs as i128),
        m13: clamp_i64(fmul_omc(xz, omc) as i128 - ys as i128),
        m14: 0,
        m21: clamp_i64(fmul_omc(xy, omc) as i128 - zs as i128),
        m22: clamp_i64(SCALE as i128 - fmul_omc(xx + zz, omc) as i128),
        m23: clamp_i64(fmul_omc(yz, omc) as i128 + xs as i128),
        m24: 0,
        m31: clamp_i64(fmul_omc(xz, omc) as i128 + ys as i128),
        m32: clamp_i64(fmul_omc(yz, omc) as i128 - xs as i128),
        m33: clamp_i64(SCALE as i128 - fmul_omc(xx + yy, omc) as i128),
        m34: 0,
        m41: 0, m42: 0, m43: 0, m44: SCALE,
    }
}

/// First row or column index other than `i` (for 3x3 minors).
pub open spec fn ex0(i: int) -> int {
    if i == 0 { 1 } else { 0 }
}

/// Second row or column index other than `i`.
pub open spec fn ex1(i: int) -> int {
    if i <= 1 { 2 } else { 1 }
}

/// Third row or column index other than `i`.
pub open spec fn ex2(i: int) -> int {
    if i == 3 { 2 } else { 3 }
}

/// Determinant of a 3x3 matrix given row-major.
pub open spec fn det3_s(
    a: int, b: int, c: int,
    d: int, e: int, f: int,
    g: int, h: int, i: int,
) -> int {
    a * e * i + b * f * g + c * d * h - c * e * g - b * d * i - a * f * h
}

/// Signed cofactor of entry `(r, c)`: the minor's determinant times
/// `(-1)^(r + c)`. The adjugate (det times the inverse) transposes these.
pub open spec fn cof(m: Mat4, r: int, c: int) -> int {
    let d = det3_s(
        ent(m, ex0(r), ex0(c)), ent(m, ex0(r), ex1(c)), ent(m, ex0(r), ex2(c)),
        ent(m, ex1(r), ex0(c)), ent(m, ex1(r), ex1(c)), ent(m, ex1(r), ex2(c)),
        ent(m, ex2(r), ex0(c)), ent(m, ex2(r), ex1(c)), ent(m, ex2(r), ex2(c)),
    );
    if (r + c) % 2 == 0 { d } else { -d }
}

/// Determinant of the 4x4 matrix, by cofactor expansion along the first row.
pub open spec fn det_s(m: Mat4) -> int {
    ent(m, 0, 0) * cof(m, 0, 0) + ent(m, 0, 1) * cof(m, 0, 1) + ent(m, 0, 2) * cof(m, 0, 2)
        + ent(m, 0, 3) * cof(m, 0, 3)
}

/// Component `j` of the row vector `(x, y, z, 1) * adj(m)`, the inverse
/// transform of a point scaled by the determinant (which cancels in the
/// homogeneous divide).
pub open spec fn adj_apply(m: Mat4, x: int, y: int, z: int, j: int) -> int {
    x * cof(m, j, 0) + y * cof(m, j, 1) + z * cof(m, j, 2) + (SCALE as int) * cof(m, j, 3)
}

/// Entry at a runtime row and column index.
fn ent_e(m: &Mat4, r: usize, c: usize) -> (v: i64)
    requires
        r < 4,
        c < 4,
    ensures
        v as int == ent(*m, r as int, c as int),
{
    if r == 0 {
        if c == 0 { m.m11 } else if c == 1 { m.m12 } else if c == 2 { m.m13 } else { m.m14 }
    } else if r == 1 {
        if c == 0 { m.m21 } else if c == 1 { m.m22 } else if c == 2 { m.m23 } else { m.m24 }
    } else if r == 2 {
        if c == 0 { m.m31 } else if c == 1 { m.m32 } else if c == 2 { m.m33 } else { m.m34 }
    } else {
        if c == 0 { m.m41 } else if c == 1 { m.m42 } else if c == 2 { m.m43 } else { m.m44 }
    }
}

/// 3x3 determinant over wide intermediates.
fn det3_e(
    a: i64, b: i64, c: i64,
    d: i64, e: i64, f: i64,
    g: i64, h: i64, i: i64,
) -> (v: i128)
    requires
        iabs(a as int) <= ENTRY_BOUND, iabs(b as int) <= ENTRY_BOUND,
        iabs(c as int) <= ENTRY_BOUND, iabs(d as int) <= ENTRY_BOUND,
        iabs(e as int) <= ENTRY_BOUND, iabs(f as int) <= ENTRY_BOUND,
        iabs(g as int) <= ENTRY_BOUND, iabs(h as int) <= ENTRY_BOUND,
        iabs(i as int) <= ENTRY_BOUND,
    ensures
        v as int == det3_s(
            a as int, b as int, c as int,
            d as int, e as int, f as int,
            g as int, h as int, i as int,
        ),
        iabs(v as int) <= 0x1800_0000_0000_0000_0000_0000,
{
    proof {
        assert(iabs(a as int * e as int) <= 0x1000_0000_0000_0000
            && iabs(b as int * f as int) <= 0x1000_0000_0000_0000
            && iabs(c as int * d as int) <= 0x1000_0000_0000_0000
            && iabs(c as int * e as int) <= 0x1000_0000_0000_0000
            && iabs(b as int * d as int) <= 0x1000_0000_0000_0000
            && iabs(a as int * f as int) <= 0x1000_0000_0000_0000
            && iabs(a as int * e as int * i as int) <= 0x400_0000_0000_0000_0000_0000
            && iabs(b as int * f as int * g as int) <= 0x400_0000_0000_0000_0000_0000
            && iabs(c as int * d as int * h as int) <= 0x400_0000_0000_0000_0000_0000
            && iabs(c as int * e as int * g as int) <= 0x400_0000_0000_0000_0000_0000
            && iabs(b as int * d as int * i as int) <= 0x400_0000_0000_0000_0000_0000
            && iabs(a as int * f as int * h as int) <= 0x400_0000_0000_0000_0000_0000)
            by (nonlinear_arith)
            requires
                iabs(a as int) <= 0x4000_0000, iabs(b as int) <= 0x4000_0000,
                iabs(c as int) <= 0x4000_0000, iabs(d as int) <= 0x4000_0000,
                iabs(e as int) <= 0x4000_0000, iabs(f as int) <= 0x4000_0000,
                iabs(g as int) <= 0x4000_0000, iabs(h as int) <= 0x4000_0000,
                iabs(i as int) <= 0x4000_0000,
        ;
    }
    (a as i128) * (e as i128) * (i as i128) + (b as i128) * (f as i128) * (g as i128)
        + (c as i128) * (d as i128) * (h as i128) - (c as i128) * (e as i128) * (g as i128)
        - (b as i128) * (d as i128) * (i as i128) - (a as i128) * (f as i128) * (h as i128)
}

/// First index other than `i`, at runtime.
fn ex0_e(i: usize) -> (r: usize)
    requires
        i < 4,
    ensures
        r as int == ex0(i as int),
        r < 4,
{
    if i == 0 { 1 } else { 0 }
}

/// Second index other than `i`, at runtime.
fn ex1_e(i: usize) -> (r: usize)
    requires
        i < 4,
    ensures
        r as int == ex1(i as int),
        r < 4,
{
    if i <= 1 { 2 } else { 1 }
}

/// Third index other than `i`, at runtime.
fn ex2_e(i: usize) -> (r: usize)
    requires
        i < 4,
    ensures
        r as int == ex2(i as int),
        r < 4,
{
    if i == 3 { 2 } else { 3 }
}

/// Signed cofactor of entry `(r, c)`.
pub fn cof_e(m: &Mat4, r: usize, c: usize) -> (v: i128)
    requires
        m.wf(),
        r < 4,
        c < 4,
    ensures
        v as int == cof(*m, r as int, c as int),
        iabs(v as int) <= 0x1800_0000_0000_0000_0000_0000,
{
    let r0 = ex0_e(r);
    let r1 = ex1_e(r);
    let r2 = ex2_e(r);
    let c0 = ex0_e(c);
    let c1 = ex1_e(c);
    let c2 = ex2_e(c);
    let d = det3_e(
        ent_e(m, r0, c0), ent_e(m, r0, c1), ent_e(m, r0, c2),
        ent_e(m, r1, c0), ent_e(m, r1, c1), ent_e(m, r1, c2),
        ent_e(m, r2, c0), ent_e(m, r2, c1), ent_e(m, r2, c2),
    );
    if (r + c) % 2 == 0 { d } else { -d }
}

/// Determinant of the matrix. Zero exactly when no inverse exists.
pub fn det4(m: &Mat4) -> (v: i128)
    requires
        m.wf(),
    ensures
        v as int == det_s(*m),
        iabs(v as int) <= 0x1800_0000_0000_0000_0000_0000_0000_0000,
{
    let c0 = cof_e(m, 0, 0);
    let c1 = cof_e(m, 0, 1);
    let c2 = cof_e(m, 0, 2);
    let c3 = cof_e(m, 0, 3);
    proof {
        assert(iabs(m.m11 as int * c0 as int) <= 0x600_0000_0000_0000_0000_0000_0000_0000
            && iabs(m.m12 as int * c1 as int) <= 0x600_0000_0000_0000_0000_0000_0000_0000
            && iabs(m.m13 as int * c2 as int) <= 0x600_0000_0000_0000_0000_0000_0000_0000
            && iabs(m.m14 as int * c3 as int) <= 0x600_0000_0000_0000_0000_0000_0000_0000)
            by (nonlinear_arith)
            requires
                iabs(m.m11 as int) <= 0x4000_0000, iabs(m.m12 as int) <= 0x4000_0000,
                iabs(m.m13 as int) <= 0x4000_0000, iabs(m.m14 as int) <= 0x4000_0000,
                iabs(c0 as int) <= 0x1800_0000_0000_0000_0000_0000,
                iabs(c1 as int) <= 0x1800_0000_0000_0000_0000_0000,
                iabs(c2 as int) <= 0x1800_0000_0000_0000_0000_0000,
                iabs(c3 as int) <= 0x1800_0000_0000_0000_0000_0000,
        ;
    }
    (m.m11 as i128) * c0 + (m.m12 as i128) * c1 + (m.m13 as i128) * c2 + (m.m14 as i128) * c3
}

/// Component `j` of `(x, y, z, 1) * adj(m)`.
pub fn adj_apply_row(m: &Mat4, x: i64, y: i64, z: i64, j: usize) -> (v: i128)
    requires
        m.wf(),
        j < 4,
        iabs(x as int) <= ENTRY_BOUND,
        iabs(y as int) <= ENTRY_BOUND,
        iabs(z as int) <= ENTRY_BOUND,
    ensures
        v as int == adj_apply(*m, x as int, y as int, z as int, j as int),
        iabs(v as int) <= 0x1800_0000_0000_0000_0000_0000_0000_0000,
{
    let c0 = cof_e(m, j, 0);
    let c1 = cof_e(m, j, 1);
    let c2 = cof_e(m, j, 2);
    let c3 = cof_e(m, j, 3);
    proof {
        assert(iabs(x as int * c0 as int) <= 0x600_0000_0000_0000_0000_0000_0000_0000
            && iabs(y as int * c1 as int) <= 0x600_0000_0000_0000_0000_0000_0000_0000
            && iabs(z as int * c2 as int) <= 0x600_0000_0000_0000_0000_0000_0000_0000
            && iabs(65536 * c3 as int) <= 0x600_0000_0000_0000_0000_0000_0000_0000)
            by (nonlinear_arith)
            requires
                iabs(x as int) <= 0x4000_0000, iabs(y as int) <= 0x4000_0000,
                iabs(z as int) <= 0x4000_0000,
                iabs(c0 as int) <= 0x1800_0000_0000_0000_0000_0000,
                iabs(c1 as int) <= 0x1800_0000_0000_0000_0000_0000,
                iabs(c2 as int) <= 0x1800_0000_0000_0000_0000_0000,
                iabs(c3 as int) <= 0x1800_0000_0000_0000_0000_0000,
        ;
    }
    (x as i128) * c0 + (y as i128) * c1 + (z as i128) * c2 + (SCALE as i128) * c3
}

/// Scaled dot product of one row with one column, clamped into range.
fn dot4(a0: i64, a1: i64, a2: i64, a3: i64, b0: i64, b1: i64, b2: i64, b3: i64) -> (v: i64)
    requires
        iabs(a0 as int) <= ENTRY_BOUND, iabs(a1 as int) <= ENTRY_BOUND,
        iabs(a2 as int) <= ENTRY_BOUND, iabs(a3 as int) <= ENTRY_BOUND,
        iabs(b0 as int) <= ENTRY_BOUND, iabs(b1 as int) <= ENTRY_BOUND,
        iabs(b2 as int) <= ENTRY_BOUND, iabs(b3 as int) <= ENTRY_BOUND,
    ensures
        v as int == clamp_s(
            tdiv(
                a0 * b0 + a1 * b1 + a2 * b2 + a3 * b3,
                SCALE as int,
            ),
        ),
        iabs(v as int) <= ENTRY_BOUND,
{
    proof {
        assert(iabs(a0 as int * b0 as int) <= 0x1000_0000_0000_0000
            && iabs(a1 as int * b1 as int) <= 0x1000_0000_0000_0000
            && iabs(a2 as int * b2 as int) <= 0x1000_0000_0000_0000
            && iabs(a3 as int * b3 as int) <= 0x1000_0000_0000_0000) by (nonlinear_arith)
            requires
                iabs(a0 as int) <= 0x4000_0000, iabs(a1 as int) <= 0x4000_0000,
                iabs(a2 as int) <= 0x4000_0000, iabs(a3 as int) <= 0x4000_0000,
                iabs(b0 as int) <= 0x4000_0000, iabs(b1 as int) <= 0x4000_0000,
                iabs(b2 as int) <= 0x4000_0000, iabs(b3 as int) <= 0x4000_0000,
        ;
    }
    let s: i128 = (a0 as i128) * (b0 as i128) + (a1 as i128) * (b1 as i128)
        + (a2 as i128) * (b2 as i128) + (a3 as i128) * (b3 as i128);
    clamp_i64(div_t(s, SCALE as i128))
}

/// The identity matrix.
pub fn identity() -> (r: Mat4)
    ensures
        r == identity_m(),
        r.wf(),
{
    Mat4 {
        m11: SCALE, m12: 0, m13: 0, m14: 0,
        m21: 0, m22: SCALE, m23: 0, m24: 0,
        m31: 0, m32: 0, m33: SCALE, m34: 0,
        m41: 0, m42: 0, m43: 0, m44: SCALE,
    }
}

/// Translation matrix; wide inputs admit negated pivots without overflow.
pub fn translation_w(tx: i128, ty: i128, tz: i128) -> (r: Mat4)
    ensures
        r == translation_s(tx as int, ty as int, tz as int),
        r.wf(),
{
    Mat4 {
        m11: SCALE, m12: 0, m13: 0, m14: 0,
        m21: 0, m22: SCALE, m23: 0, m24: 0,
        m31: 0, m32: 0, m33: SCALE, m34: 0,
        m41: clamp_i64(tx), m42: clamp_i64(ty), m43: clamp_i64(tz), m44: SCALE,
    }
}

/// Translation matrix from fixed-point offsets.
pub fn translation(tx: i64, ty: i64, tz: i64) -> (r: Mat4)
    ensures
        r == translation_s(tx as int, ty as int, tz as int),
        r.wf(),
{
    translation_w(tx as i128, ty as i128, tz as i128)
}

/// Scale matrix from fixed-point factors.
pub fn scale_mat(sx: i64, sy: i64, sz: i64) -> (r: Mat4)
    ensures
        r == scale_s(sx as int, sy as int, sz as int),
        r.wf(),
{
    Mat4 {
        m11: clamp_i64(sx as i128), m12: 0, m13: 0, m14: 0,
        m21: 0, m22: clamp_i64(sy as i128), m23: 0, m24: 0,
        m31: 0, m32: 0, m33: clamp_i64(sz as i128), m34: 0,
        m41: 0, m42: 0, m43: 0, m44: SCALE,
    }
}

/// The matrix product `a * b`.
pub fn mat_mul(a: &Mat4, b: &Mat4) -> (r: Mat4)
    requires
        a.wf(),
        b.wf(),
    ensures
        r == mul_m(*a, *b),
        r.wf(),
{
    Mat4 {
        m11: dot4(a.m11, a.m12, a.m13, a.m14, b.m11, b.m21, b.m31, b.m41),
        m12: dot4(a.m11, a.m12, a.m13, a.m14, b.m12, b.m22, b.m32, b.m42),
        m13: dot4(a.m11, a.m12, a.m13, a.m14, b.m13, b.m23, b.m33, b.m43),
        m14: dot4(a.m11, a.m12, a.m13, a.m14, b.m14, b.m24, b.m34, b.m44),
        m21: dot4(a.m21, a.m22, a.m23, a.m24, b.m11, b.m21, b.m31, b.m41),
        m22: dot4(a.m21, a.m22, a.m23, a.m24, b.m12, b.m22, b.m32, b.m42),
        m23: dot4(a.m21, a.m22, a.m23, a.m24, b.m13, b.m23, b.m33, b.m43),
        m24: dot4(a.m21, a.m22, a.m23, a.m24, b.m14, b.m24, b.m34, b.m44),
        m31: dot4(a.m31, a.m32, a.m33, a.m34, b.m11, b.m21, b.m31, b.m41),
        m32: dot4(a.m31, a.m32, a.m33, a.m34, b.m12, b.m22, b.m32, b.m42),
        m33: dot4(a.m31, a.m32, a.m33, a.m34, b.m13, b.m23, b.m33, b.m43),
        m34: dot4(a.m31, a.m32, a.m33, a.m34, b.m14, b.m24, b.m34, b.m44),
        m41: dot4(a.m41, a.m42, a.m43, a.m44, b.m11, b.m21, b.m31, b.m41),
        m42: dot4(a.m41, a.m42, a.m43, a.m44, b.m12, b.m22, b.m32, b.m42),
        m43: dot4(a.m41, a.m42, a.m43, a.m44, b.m13, b.m23, b.m33, b.m43),
        m44: dot4(a.m41, a.m42, a.m43, a.m44, b.m14, b.m24, b.m34, b.m44),
    }
}

} // verus!
