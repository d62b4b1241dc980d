//! Double-width multiplication used by the fixed-point price converter and
//! by the overflow guards of the transaction planner.
use vstd::prelude::*;
use vstd::arithmetic::div_mod::{lemma_fundamental_div_mod, lemma_mod_bound};

verus! {

/// Two to the sixty-fourth power, the scale of one 64-bit limb.
pub const TWO64: u128 = 0x1_0000_0000_0000_0000;

/// Two to the one-hundred-twenty-eighth power, the scale of a whole
/// 128-bit word.
pub open spec fn pow2_128() -> int {
    0x1_0000_0000_0000_0000_0000_0000_0000_0000int
}

/// Full 256-bit product of two 128-bit words, returned as the pair
/// `(high, low)` with `high * 2^128 + low == x * y`.
pub fn mul_u128(x: u128, y: u128) -> (r: (u128, u128))
    ensures
        r.0 * pow2_128() + r.1 == x * y,
{
    let xh: u128 = x / TWO64;
    let xl: u128 = x % TWO64;
    let yh: u128 = y / TWO64;
    let yl: u128 = y % TWO64;
    proof {
        lemma_fundamental_div_mod(x as int, TWO64 as int);
        lemma_mod_bound(x as int, TWO64 as int);
        lemma_fundamental_div_mod(y as int, TWO64 as int);
        lemma_mod_bound(y as int, TWO64 as int);
        assert(xh < TWO64 && yh < TWO64) by (nonlinear_arith)
            requires
                x == TWO64 * xh + (x as int % TWO64 as int),
                y == TWO64 * yh + (y as int % TWO64 as int),
                x as int % TWO64 as int >= 0,
                y as int % TWO64 as int >= 0,
                x < TWO64 * TWO64,
                y < TWO64 * TWO64,
        ;
        assert(xl * yl < TWO64 * TWO64 && xh * yl < TWO64 * TWO64 && xl * yh < TWO64 * TWO64
            && xh * yh < TWO64 * TWO64) by (nonlinear_arith)
            requires
                xl < TWO64,
                yl < TWO64,
                xh < TWO64,
                yh < TWO64,
        ;
    }
    let p0: u128 = xl * yl;
    let p1: u128 = xh * yl;
    let p2: u128 = xl * yh;
    let p3: u128 = xh * yh;
    let p0h: u128 = p0 / TWO64;
    let p0l: u128 = p0 % TWO64;
    proof {
        lemma_fundamental_div_mod(p0 as int, TWO64 as int);
        lemma_mod_bound(p0 as int, TWO64 as int);
        lemma_fundamental_div_mod(p1 as int, TWO64 as int);
        lemma_mod_bound(p1 as int, TWO64 as int);
        lemma_fundamental_div_mod(p2 as int, TWO64 as int);
        lemma_mod_bound(p2 as int, TWO64 as int);
        assert(p0h < TWO64) by (nonlinear_arith)
            requires
                p0 == TWO64 * p0h + (p0 as int % TWO64 as int),
                p0 as int % TWO64 as int >= 0,
                p0 < TWO64 * TWO64,
        ;
    }
    let mid: u128 = p0h + p1 % TWO64 + p2 % TWO64;
    proof {
        lemma_fundamental_div_mod(mid as int, TWO64 as int);
        lemma_mod_bound(mid as int, TWO64 as int);
    }
    proof {
        assert(p3 <= (TWO64 - 1) * (TWO64 - 1) && p1 <= (TWO64 - 1) * (TWO64 - 1)
            && p2 <= (TWO64 - 1) * (TWO64 - 1)) by (nonlinear_arith)
            requires
                xl <= TWO64 - 1,
                yl <= TWO64 - 1,
                xh <= TWO64 - 1,
                yh <= TWO64 - 1,
                p1 == xh * yl,
                p2 == xl * yh,
                p3 == xh * yh,
        ;
        assert(p1 as int / TWO64 as int <= TWO64 - 2 && p2 as int / TWO64 as int <= TWO64 - 2
            && mid as int / TWO64 as int <= 2) by (nonlinear_arith)
            requires
                p1 <= (TWO64 - 1) * (TWO64 - 1),
                p2 <= (TWO64 - 1) * (TWO64 - 1),
                (mid as int) < 3 * (TWO64 as int),
                p1 == TWO64 * (p1 as int / TWO64 as int) + p1 as int % TWO64 as int,
                p2 == TWO64 * (p2 as int / TWO64 as int) + p2 as int % TWO64 as int,
                mid == TWO64 * (mid as int / TWO64 as int) + mid as int % TWO64 as int,
                p1 as int % TWO64 as int >= 0,
                p2 as int % TWO64 as int >= 0,
                mid as int % TWO64 as int >= 0,
        ;
    }
    let lo: u128 = p0l + (mid % TWO64) * TWO64;
    let hi: u128 = p3 + p1 / TWO64 + p2 / TWO64 + mid / TWO64;
    proof {
        // x * y expands over the 64-bit limbs of both factors.
        assert(x * y == p3 * TWO64 * TWO64 + p1 * TWO64 + p2 * TWO64 + p0) by (nonlinear_arith)
            requires
                x == TWO64 * xh + xl,
                y == TWO64 * yh + yl,
                p0 == xl * yl,
                p1 == xh * yl,
                p2 == xl * yh,
                p3 == xh * yh,
        ;
        // Reassemble the carry chain.
        assert(hi * pow2_128() + lo
            == p3 * TWO64 * TWO64 + p1 * TWO64 + p2 * TWO64 + p0) by (nonlinear_arith)
            requires
                hi == p3 + p1 as int / TWO64 as int + p2 as int / TWO64 as int
                    + mid as int / TWO64 as int,
                lo == p0l + (mid as int % TWO64 as int) * TWO64,
                mid == p0h + p1 as int % TWO64 as int + p2 as int % TWO64 as int,
                p0 == TWO64 * p0h + p0l,
                p1 == TWO64 * (p1 as int / TWO64 as int) + p1 as int % TWO64 as int,
                p2 == TWO64 * (p2 as int / TWO64 as int) + p2 as int % TWO64 as int,
                mid == TWO64 * (mid as int / TWO64 as int) + mid as int % TWO64 as int,
                pow2_128() == TWO64 * TWO64,
        ;
    }
    (hi, lo)
}

} // verus!
