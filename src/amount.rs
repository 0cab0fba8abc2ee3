//! Fixed-point numbers: every price, quantity and dollar amount is an integer
//! count of millionths.
use vstd::prelude::*;

verus! {

/// Millionths in one unit (one share, or one dollar).
pub const SCALE: i64 = 1_000_000;

/// One cent, in millionths.
pub const CENT: i64 = 10_000;

/// A position whose magnitude falls below this (1e-4 units) is treated as flat.
pub const EPSILON: i64 = 100;

/// Identity of a 256-bit on-chain value (a token or a market condition), as
/// its high and low halves.
#[derive(Clone, Copy, Debug, PartialEq, Eq, Hash, Structural)]
pub struct Id256 {
    pub hi: u128,
    pub lo: u128,
}

pub open spec fn abs(x: int) -> int {
    if x < 0 { -x } else { x }
}

/// `x` rounded to a whole number of cents, halves going to the even cent.
pub open spec fn round_cents(x: int) -> int {
    let q = x / (CENT as int);
    let r = x % (CENT as int);
    if r > CENT / 2 {
        (q + 1) * CENT
    } else if r < CENT / 2 {
        q * CENT
    } else if q % 2 == 0 {
        q * CENT
    } else {
        (q + 1) * CENT
    }
}

/// `x` rounded down to a whole number of cents.
pub open spec fn floor_cents(x: int) -> int {
    (x / (CENT as int)) * CENT
}

/// Quotient and remainder of `x` by `d`, rounding toward negative infinity.
pub fn div_mod_floor(x: i64, d: i64) -> (r: (i64, i64))
    requires
        d > 0,
    ensures
        r.0 == x as int / (d as int),
        r.1 == x as int % (d as int),
        0 <= r.1 < d,
        x == r.0 * d + r.1,
{
    if x >= 0 {
        proof {
            vstd::arithmetic::div_mod::lemma_fundamental_div_mod(x as int, d as int);
            vstd::arithmetic::mul::lemma_mul_is_commutative(d as int, x as int / (d as int));
        }
        (x / d, x % d)
    } else {
        let y: i64 = -(x + 1);
        let qy: i64 = y / d;
        let ry: i64 = y % d;
        proof {
            assert(y == qy * d + ry) by (nonlinear_arith)
                requires qy == y / d, ry == y % d, y >= 0, d > 0;
            assert(x == (-qy - 1) * d + (d - 1 - ry)) by (nonlinear_arith)
                requires y == qy * d + ry, y == -(x + 1);
            vstd::arithmetic::div_mod::lemma_fundamental_div_mod_converse(
                x as int,
                d as int,
                -qy - 1,
                d - 1 - ry,
            );
        }
        let r = (-qy - 1, d - 1 - ry);
        proof {
            assert(x == r.0 * d + r.1);
        }
        r
    }
}

/// Rounds to two decimal places, halves to even.
pub fn round_to_cents(x: i64) -> (r: i64)
    requires
        i64::MIN + CENT <= x <= i64::MAX - CENT,
    ensures
        r == round_cents(x as int),
{
    let (q, rem) = div_mod_floor(x, CENT);
    proof {
        vstd::arithmetic::div_mod::lemma_fundamental_div_mod(x as int, CENT as int);
    }
    if rem > CENT / 2 {
        (q + 1) * CENT
    } else if rem < CENT / 2 {
        q * CENT
    } else if q % 2 == 0 {
        q * CENT
    } else {
        (q + 1) * CENT
    }
}

/// Rounds down to two decimal places.
pub fn floor_to_cents(x: i64) -> (r: i64)
    requires
        i64::MIN + CENT <= x,
    ensures
        r == floor_cents(x as int),
{
    let (q, _rem) = div_mod_floor(x, CENT);
    proof {
        vstd::arithmetic::div_mod::lemma_fundamental_div_mod(x as int, CENT as int);
    }
    q * CENT
}

} // verus!
