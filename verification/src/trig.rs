//! Fixed-point sine and cosine.
//!
//! Angles are radians in fixed-point units. The angle is reduced modulo a
//! full turn, split into one of four quadrants plus an offset of at most an
//! eighth of a turn, and the offset's sine and cosine come from short
//! alternating-series polynomials. Results are clamped into `[-1, 1]`
//! (`[-SCALE, SCALE]` in units), as a sine and cosine must be.

use vstd::prelude::*;

use crate::fixed::{iabs, tdiv, SCALE};

verus! {

/// A full turn (two pi) in fixed-point units.
pub const TURN: i64 = 3294199;

/// A quarter turn (pi over two) in fixed-point units.
pub const QUARTER_TURN: i64 = 823550;

/// Half of a quarter turn, the rounding offset of the reduction.
pub const EIGHTH_TURN: i64 = 411775;

/// Pi in fixed-point units.
pub const PI_FP: i64 = 1647099;

/// Truncating remainder, the semantics of Rust's `%` on signed integers.
pub open spec fn tmod(a: int, b: int) -> int {
    if a >= 0 {
        a % b
    } else {
        -((-a) % b)
    }
}

/// The angle brought into `[0, TURN)`.
pub open spec fn norm_s(x: int) -> int {
    let t = tmod(x, TURN as int);
    if t < 0 {
        t + TURN
    } else {
        t
    }
}

/// Quadrant index of the reduced angle, in `[0, 4)`.
pub open spec fn red_q_s(x: int) -> int {
    let n = (norm_s(x) + EIGHTH_TURN) / (QUARTER_TURN as int);
    if n == 4 {
        0
    } else {
        n
    }
}

/// Offset of the angle from its nearest quadrant boundary.
pub open spec fn red_r_s(x: int) -> int {
    let n = (norm_s(x) + EIGHTH_TURN) / (QUARTER_TURN as int);
    norm_s(x) - n * QUARTER_TURN
}

/// Sine of a small offset: `r - r^3/6 + r^5/120 - r^7/5040`, fixed-point.
pub open spec fn sin_poly_s(r: int) -> int {
    let r2 = (r * r) / (SCALE as int);
    let t2 = tdiv(r * r2, 6 * SCALE);
    let t3 = tdiv(t2 * r2, 20 * SCALE);
    let t4 = tdiv(t3 * r2, 42 * SCALE);
    r - t2 + t3 - t4
}

/// Cosine of a small offset: `1 - r^2/2 + r^4/24 - r^6/720 + r^8/40320`.
pub open spec fn cos_poly_s(r: int) -> int {
    let r2 = (r * r) / (SCALE as int);
    let u1 = r2 / 2;
    let u2 = (u1 * r2) / (12 * SCALE);
    let u3 = (u2 * r2) / (30 * SCALE);
    let u4 = (u3 * r2) / (56 * SCALE);
    SCALE - u1 + u2 - u3 + u4
}

/// Clamp a scalar into `[-SCALE, SCALE]`.
pub open spec fn clamp_unit_s(v: int) -> int {
    if v > SCALE as int {
        SCALE as int
    } else if v < -(SCALE as int) {
        -(SCALE as int)
    } else {
        v
    }
}

/// Sine of a fixed-point radian angle.
pub open spec fn sin_fp_s(x: int) -> int {
    let q = red_q_s(x);
    let r = red_r_s(x);
    clamp_unit_s(
        if q == 0 {
            sin_poly_s(r)
        } else if q == 1 {
            cos_poly_s(r)
        } else if q == 2 {
            -sin_poly_s(r)
        } else {
            -cos_poly_s(r)
        },
    )
}

/// Cosine of a fixed-point radian angle.
pub open spec fn cos_fp_s(x: int) -> int {
    let q = red_q_s(x);
    let r = red_r_s(x);
    clamp_unit_s(
        if q == 0 {
            cos_poly_s(r)
        } else if q == 1 {
            -sin_poly_s(r)
        } else if q == 2 {
            -cos_poly_s(r)
        } else {
            sin_poly_s(r)
        },
    )
}

/// Radians from degrees: `deg * pi / 180`, truncating.
pub open spec fn rad_of_deg_s(deg: int) -> int {
    tdiv(deg * (PI_FP as int), 180 * (SCALE as int))
}

/// Quadrant and offset of the reduced angle.
fn reduce(x: i64) -> (qr: (i64, i64))
    ensures
        qr.0 as int == red_q_s(x as int),
        qr.1 as int == red_r_s(x as int),
        0 <= qr.0 < 4,
        iabs(qr.1 as int) <= EIGHTH_TURN,
{
    let t = x % TURN;
    let m: i64 = if t < 0 {
        t + TURN
    } else {
        t
    };
    proof {
        vstd::arithmetic::div_mod::lemma_fundamental_div_mod(
            m as int + EIGHTH_TURN,
            QUARTER_TURN as int,
        );
        vstd::arithmetic::div_mod::lemma_div_pos_is_pos(
            m as int + EIGHTH_TURN,
            QUARTER_TURN as int,
        );
        vstd::arithmetic::div_mod::lemma_div_is_ordered(
            m as int + EIGHTH_TURN,
            3705973,
            QUARTER_TURN as int,
        );
        vstd::arithmetic::div_mod::lemma_mod_division_less_than_divisor(
            m as int + EIGHTH_TURN,
            QUARTER_TURN as int,
        );
    }
    let n = (m + EIGHTH_TURN) / QUARTER_TURN;
    let r = m - n * QUARTER_TURN;
    let q: i64 = if n == 4 {
        0
    } else {
        n
    };
    (q, r)
}

/// Sine of a small offset.
fn sin_poly(r: i64) -> (v: i64)
    requires
        iabs(r as int) <= EIGHTH_TURN + 1,
    ensures
        v as int == sin_poly_s(r as int),
        iabs(v as int) <= 2 * SCALE,
{
    proof {
        assert(0 <= r as int * r as int <= 169559474176) by (nonlinear_arith)
            requires
                iabs(r as int) <= 411776,
        ;
    }
    let rr = r * r;
    proof {
        crate::fixed::lemma_tdiv_bound(rr as int, SCALE as int, 169559474176);
    }
    let r2 = rr / SCALE;
    proof {
        assert(iabs(r as int * r2 as int) <= 133172064384) by (nonlinear_arith)
            requires
                iabs(r as int) <= 411776,
                0 <= r2 <= 323409,
        ;
    }
    let p2 = r * r2;
    proof {
        crate::fixed::lemma_tdiv_bound(p2 as int, 6 * SCALE as int, 133172064384);
    }
    let t2 = p2 / (6 * SCALE);
    proof {
        assert(iabs(t2 as int * r2 as int) <= 13691196606) by (nonlinear_arith)
            requires
                iabs(t2 as int) <= 42334,
                0 <= r2 <= 323409,
        ;
    }
    let p3 = t2 * r2;
    proof {
        crate::fixed::lemma_tdiv_bound(p3 as int, 20 * SCALE as int, 13691196606);
    }
    let t3 = p3 / (20 * SCALE);
    proof {
        assert(iabs(t3 as int * r2 as int) <= 422048745) by (nonlinear_arith)
            requires
                iabs(t3 as int) <= 1305,
                0 <= r2 <= 323409,
        ;
    }
    let p4 = t3 * r2;
    proof {
        crate::fixed::lemma_tdiv_bound(p4 as int, 42 * SCALE as int, 422048745);
    }
    let t4 = p4 / (42 * SCALE);
    r - t2 + t3 - t4
}

/// Cosine of a small offset.
fn cos_poly(r: i64) -> (v: i64)
    requires
        iabs(r as int) <= EIGHTH_TURN + 1,
    ensures
        v as int == cos_poly_s(r as int),
        iabs(v as int) <= 2 * SCALE,
{
    proof {
        assert(0 <= r as int * r as int <= 169559474176) by (nonlinear_arith)
            requires
                iabs(r as int) <= 411776,
        ;
    }
    let rr = r * r;
    proof {
        crate::fixed::lemma_tdiv_bound(rr as int, SCALE as int, 169559474176);
    }
    let r2 = rr / SCALE;
    proof {
        crate::fixed::lemma_tdiv_bound(r2 as int, 2, 323409);
    }
    let u1 = r2 / 2;
    proof {
        assert(0 <= u1 as int * r2 as int <= 52296528936) by (nonlinear_arith)
            requires
                0 <= u1 <= 161704,
                0 <= r2 <= 323409,
        ;
    }
    let q2 = u1 * r2;
    proof {
        crate::fixed::lemma_tdiv_bound(q2 as int, 12 * SCALE as int, 52296528936);
    }
    let u2 = q2 / (12 * SCALE);
    proof {
        assert(0 <= u2 as int * r2 as int <= 2688175608) by (nonlinear_arith)
            requires
                0 <= u2 <= 8312,
                0 <= r2 <= 323409,
        ;
    }
    let q3 = u2 * r2;
    proof {
        crate::fixed::lemma_tdiv_bound(q3 as int, 30 * SCALE as int, 2688175608);
    }
    let u3 = q3 / (30 * SCALE);
    proof {
        assert(0 <= u3 as int * r2 as int <= 54979530) by (nonlinear_arith)
            requires
                0 <= u3 <= 170,
                0 <= r2 <= 323409,
        ;
    }
    let q4 = u3 * r2;
    proof {
        crate::fixed::lemma_tdiv_bound(q4 as int, 56 * SCALE as int, 54979530);
    }
    let u4 = q4 / (56 * SCALE);
    SCALE - u1 + u2 - u3 + u4
}

/// Clamp into `[-SCALE, SCALE]`.
fn clamp_unit(v: i64) -> (r: i64)
    ensures
        r as int == clamp_unit_s(v as int),
        iabs(r as int) <= SCALE,
{
    if v > SCALE {
        SCALE
    } else if v < -SCALE {
        -SCALE
    } else {
        v
    }
}

/// Sine and cosine of a fixed-point radian angle.
pub fn sin_cos_fp(x: i64) -> (sc: (i64, i64))
    ensures
        sc.0 as int == sin_fp_s(x as int),
        sc.1 as int == cos_fp_s(x as int),
        iabs(sc.0 as int) <= SCALE,
        iabs(sc.1 as int) <= SCALE,
{
    let (q, r) = reduce(x);
    let sp = sin_poly(r);
    let cp = cos_poly(r);
    let s = clamp_unit(
        if q == 0 {
            sp
        } else if q == 1 {
            cp
        } else if q == 2 {
            -sp
        } else {
            -cp
        },
    );
    let c = clamp_unit(
        if q == 0 {
            cp
        } else if q == 1 {
            -sp
        } else if q == 2 {
            -cp
        } else {
            sp
        },
    );
    (s, c)
}

/// Radians from degrees.
pub fn rad_of_deg(deg: i64) -> (r: i64)
    ensures
        r as int == rad_of_deg_s(deg as int),
{
    proof {
        assert(iabs(deg as int * (PI_FP as int)) <= 0x10_0000_0000_0000_0000_0000)
            by (nonlinear_arith)
            requires
                iabs(deg as int) <= 0x8000_0000_0000_0000,
        ;
        vstd::arithmetic::div_mod::lemma_div_is_ordered(
            iabs(deg as int * (PI_FP as int)),
            0x10_0000_0000_0000_0000_0000,
            180 * (SCALE as int),
        );
    }
    let p: i128 = (deg as i128) * (PI_FP as i128);
    crate::fixed::div_t(p, 180 * (SCALE as i128)) as i64
}

} // verus!
