//! Fixed-point scalar arithmetic: truncating division, range clamping.
//!
//! A scalar value `v` stands for the real number `v / SCALE`. Matrix entries
//! and coordinates are kept within `[-ENTRY_BOUND, ENTRY_BOUND]` so that every
//! intermediate product and four-term sum of the matrix algebra fits in
//! `i128` without overflow.

use vstd::prelude::*;

verus! {

/// Number of fixed-point units per 1.0 (19 fractional bits).
pub const SCALE: i64 = 524288;

/// Largest magnitude a matrix entry or coordinate may take: 2^30 units,
/// 2048.0 after scaling. Constructors saturate here rather than wrap.
pub const ENTRY_BOUND: i64 = 1073741824;

/// Magnitude of a scalar.
pub open spec fn iabs(v: int) -> int {
    if v < 0 {
        -v
    } else {
        v
    }
}

/// Truncating (round-toward-zero) division, the semantics of Rust's `/` on
/// signed integers, expressed over mathematical integers.
pub open spec fn tdiv(a: int, b: int) -> int {
    if (a < 0) != (b < 0) {
        -(iabs(a) / iabs(b))
    } else {
        iabs(a) / iabs(b)
    }
}

/// Clamp a scalar into the representable entry range.
pub open spec fn clamp_s(v: int) -> int {
    if v > ENTRY_BOUND as int {
        ENTRY_BOUND as int
    } else if v < -(ENTRY_BOUND as int) {
        -(ENTRY_BOUND as int)
    } else {
        v
    }
}

/// A truncating quotient is no larger in magnitude than the dividend's
/// bound divided by a positive divisor.
pub proof fn lemma_tdiv_bound(a: int, b: int, m: int)
    requires
        b > 0,
        iabs(a) <= m,
    ensures
        iabs(tdiv(a, b)) <= m / b,
        a >= 0 ==> tdiv(a, b) >= 0,
{
    vstd::arithmetic::div_mod::lemma_div_pos_is_pos(iabs(a), b);
    vstd::arithmetic::div_mod::lemma_div_is_ordered(iabs(a), m, b);
}

/// Exec mirror of [`clamp_s`], narrowing a wide intermediate to an entry.
pub fn clamp_i64(v: i128) -> (r: i64)
    ensures
        r as int == clamp_s(v as int),
{
    if v > ENTRY_BOUND as i128 {
        ENTRY_BOUND
    } else if v < -(ENTRY_BOUND as i128) {
        -ENTRY_BOUND
    } else {
        v as i64
    }
}

/// Truncating division on wide intermediates; `b` must be nonzero and the
/// operands far from the `i128` limits, which every caller's range bounds give.
pub fn div_t(a: i128, b: i128) -> (r: i128)
    requires
        b != 0,
        -0x4000_0000_0000_0000_0000_0000_0000_0000 < a
            < 0x4000_0000_0000_0000_0000_0000_0000_0000,
        -0x4000_0000_0000_0000_0000_0000_0000_0000 < b
            < 0x4000_0000_0000_0000_0000_0000_0000_0000,
    ensures
        r as int == tdiv(a as int, b as int),
        iabs(r as int) <= iabs(a as int),
{
    let negate = (a < 0) != (b < 0);
    let ua: i128 = if a < 0 { -a } else { a };
    let ub: i128 = if b < 0 { -b } else { b };
    proof {
        vstd::arithmetic::div_mod::lemma_div_pos_is_pos(ua as int, ub as int);
        vstd::arithmetic::div_mod::lemma_div_nonincreasing(ua as int, ub as int);
    }
    let q = ua / ub;
    if negate {
        -q
    } else {
        q
    }
}

} // verus!
