//! Slippage adjustment: inflating or deflating a raw token amount by a
//! caller-supplied tolerance fraction, rounded toward the caller's
//! disadvantage.
use vstd::prelude::*;

verus! {

/// A slippage tolerance expressed as the exact fraction
/// `numerator / denominator`. A fraction of one or more together with
/// downward rounding drives the result to zero; that hazard is the
/// caller's to guard against, exactly as the contract below states.
#[derive(Clone, Copy, Debug, PartialEq, Eq, Structural)]
pub struct SlippageRatio {
    pub numerator: u64,
    pub denominator: u64,
}

impl SlippageRatio {
    /// A well-formed tolerance has a positive denominator.
    pub open spec fn wf(self) -> bool {
        self.denominator >= 1
    }
}

/// Ceiling division for non-negative dividends and positive divisors.
pub open spec fn spec_ceil_div(x: int, d: int) -> int {
    (x + d - 1) / d
}

/// The slippage padding added to (or shaved off) `amount`: the tolerance
/// fraction of the amount, rounded away from the caller.
pub open spec fn spec_slippage_part(amount: int, num: int, den: int) -> int {
    spec_ceil_div(amount * num, den)
}

/// What `amount_with_slippage` returns. Upward rounding computes
/// `ceil(amount * (1 + slippage))`, saturating at the machine word;
/// downward rounding computes `floor(amount * (1 - slippage))`, saturating
/// at zero for tolerances of one or more.
pub open spec fn spec_amount_with_slippage(amount: int, num: int, den: int, round_up: bool) -> int {
    let part = spec_slippage_part(amount, num, den);
    if round_up {
        if amount + part > u64::MAX as int {
            u64::MAX as int
        } else {
            amount + part
        }
    } else {
        if part >= amount {
            0
        } else {
            amount - part
        }
    }
}

/// Apply the slippage tolerance to `amount`. Maxima (`round_up`) are
/// rounded up, minima are rounded down, so the result is always at least
/// as unfavourable to the caller as the exact fraction.
pub fn amount_with_slippage(amount: u64, slippage: &SlippageRatio, round_up: bool) -> (r: u64)
    requires
        slippage.wf(),
    ensures
        r == spec_amount_with_slippage(
            amount as int,
            slippage.numerator as int,
            slippage.denominator as int,
            round_up,
        ),
{
    let a: u128 = amount as u128;
    let n: u128 = slippage.numerator as u128;
    let d: u128 = slippage.denominator as u128;
    proof {
        assert(a * n <= (u64::MAX as int) * (u64::MAX as int)) by (nonlinear_arith)
            requires
                a <= u64::MAX as int,
                n <= u64::MAX as int,
        ;
    }
    let prod: u128 = a * n;
    let part: u128 = (prod + (d - 1)) / d;
    proof {
        assert(part <= prod) by (nonlinear_arith)
            requires
                d >= 1,
                prod >= 0,
                part == (prod + (d - 1)) as int / d as int,
        ;
    }
    if round_up {
        let total: u128 = a + part;
        if total > u64::MAX as u128 {
            u64::MAX
        } else {
            total as u64
        }
    } else {
        if part >= a {
            0
        } else {
            (a - part) as u64
        }
    }
}

/// A zero tolerance changes nothing: rounding up and rounding down both
/// return the amount itself.
pub proof fn lemma_zero_slippage_is_identity(amount: u64, den: int)
    requires
        den >= 1,
    ensures
        spec_amount_with_slippage(amount as int, 0, den, true) == amount as int,
        spec_amount_with_slippage(amount as int, 0, den, false) == amount as int,
{
    assert(amount as int * 0 == 0);
    assert((0 + den - 1) / den == 0) by {
        vstd::arithmetic::div_mod::lemma_basic_div(den - 1, den);
    }
}

/// Downward rounding agrees with the textbook form: for a tolerance below
/// one, subtracting the rounded-up padding equals taking the floor of
/// `amount * (den - num) / den` directly.
pub proof fn lemma_slippage_down_is_floor(amount: int, num: int, den: int)
    requires
        amount >= 0,
        0 <= num <= den,
        den >= 1,
    ensures
        (amount * (den - num)) / den
            == amount - spec_ceil_div(amount * num, den),
{
    assert(amount * (den - num) == amount * den - amount * num) by (nonlinear_arith);
    assert(amount * num >= 0) by (nonlinear_arith)
        requires
            amount >= 0,
            num >= 0,
    ;
    let x = amount * num;
    // floor((a*den - x) / den) == a + floor((-x)/den) == a - ceil(x/den)
    vstd::arithmetic::div_mod::lemma_hoist_over_denominator(-x, amount, den as nat);
    // (-x)/den == -((x + den - 1)/den) for den > 0
    vstd::arithmetic::div_mod::lemma_fundamental_div_mod(x + den - 1, den);
    vstd::arithmetic::div_mod::lemma_mod_bound(x + den - 1, den);
    let q = (x + den - 1) / den;
    let r = (x + den - 1) % den;
    assert(-x == (-q) * den + (den - 1 - r)) by (nonlinear_arith)
        requires
            x + den - 1 == den * q + r,
    ;
    vstd::arithmetic::div_mod::lemma_fundamental_div_mod_converse(-x, den, -q, den - 1 - r);
}

} // verus!
