//! Fixed-point price conversion: turning an exact rational price into the
//! protocol's 64.64 square-root-price representation, compensating for the
//! two tokens' decimal scales.
use vstd::prelude::*;
use vstd::arithmetic::div_mod::{
    lemma_fundamental_div_mod,
    lemma_fundamental_div_mod_converse,
    lemma_mod_bound,
    lemma_div_is_ordered,
};
use crate::wide::{mul_u128, pow2_128, TWO64};
use crate::PlanError;

verus! {

/// Two to the ninety-sixth power: every square-root price is below it.
pub const TWO96: u128 = 0x1_0000_0000_0000_0000_0000_0000;

/// A human-scale price expressed as the exact fraction
/// `numerator / denominator` of token-1 units per token-0 unit.
#[derive(Clone, Copy, Debug, PartialEq, Eq, Structural)]
pub struct PriceRatio {
    pub numerator: u64,
    pub denominator: u64,
}

impl PriceRatio {
    /// A well-formed price has a positive denominator.
    pub open spec fn wf(self) -> bool {
        self.denominator >= 1
    }
}

/// The price ratio scaled up by two to the one-hundred-twenty-eighth
/// power and truncated: the square of the exact square-root price in
/// 64.64 fixed point.
pub open spec fn spec_ratio_x128(num: int, den: int) -> int {
    (num * pow2_128()) / den
}

/// `r` is the square-root price in 64.64 fixed point for the ratio
/// `num / den`: the largest integer whose square is at most the ratio
/// scaled by two to the one-hundred-twenty-eighth power. Equivalently,
/// `r == floor(sqrt(num / den) * 2^64)`.
pub open spec fn spec_is_sqrt_price_x64(num: int, den: int, r: int) -> bool {
    &&& r * r <= spec_ratio_x128(num, den)
    &&& spec_ratio_x128(num, den) < (r + 1) * (r + 1)
}

/// Scale a price ratio by two to the sixty-fourth power, truncating
/// toward zero.
pub fn price_to_x64(num: u64, den: u64) -> (r: u128)
    requires
        den >= 1,
    ensures
        r == (num * TWO64) / (den as int),
{
    let t: u128 = (num as u128) * TWO64;
    t / (den as u128)
}

/// The square-root price in 64.64 fixed point of the ratio `num / den`,
/// computed exactly: the integer square root of
/// `floor(num * 2^128 / den)`.
pub fn sqrt_price_x64_from_ratio(num: u64, den: u64) -> (r: u128)
    requires
        num >= 1,
        den >= 1,
    ensures
        spec_is_sqrt_price_x64(num as int, den as int, r as int),
        r < TWO96,
{
    let d: u128 = den as u128;
    let t: u128 = (num as u128) * TWO64;
    let q1: u128 = t / d;
    let r1: u128 = t % d;
    proof {
        lemma_fundamental_div_mod(t as int, d as int);
        lemma_mod_bound(t as int, d as int);
    }
    let t2: u128 = r1 * TWO64;
    let q2: u128 = t2 / d;
    proof {
        lemma_fundamental_div_mod(t2 as int, d as int);
        lemma_mod_bound(t2 as int, d as int);
        assert(q2 < TWO64) by (nonlinear_arith)
            requires
                t2 == d * q2 + (t2 as int % d as int),
                (t2 as int % d as int) >= 0,
                t2 == r1 * TWO64,
                r1 < d,
        ;
    }
    let ghost qq = q1 * TWO64 + q2;
    proof {
        // num * 2^128 == d * (q1 * 2^64 + q2) + remainder, so qq is the
        // truncated scaled ratio.
        assert(num * pow2_128() == d * qq + (t2 as int % d as int)) by (nonlinear_arith)
            requires
                t == num * TWO64,
                t == d * q1 + r1,
                t2 == r1 * TWO64,
                t2 == d * q2 + (t2 as int % d as int),
                qq == q1 * TWO64 + q2,
                pow2_128() == TWO64 * TWO64,
        ;
        lemma_fundamental_div_mod_converse(
            (num as int) * pow2_128(),
            d as int,
            qq as int,
            t2 as int % d as int,
        );
        assert(spec_ratio_x128(num as int, den as int) == qq);
        // qq < 2^192 because q1 < 2^128 and q2 < 2^64.
        assert(qq < TWO96 * TWO96) by (nonlinear_arith)
            requires
                qq == q1 * TWO64 + q2,
                q1 < pow2_128(),
                q2 < TWO64,
                pow2_128() == TWO64 * TWO64,
                TWO96 * TWO96 == pow2_128() * TWO64,
        ;
    }
    // Exact two-limb representation of the scaled ratio, against which
    // candidate squares are compared.
    let qtop: u128 = q1 / TWO64;
    let qbot: u128 = (q1 % TWO64) * TWO64 + q2;
    proof {
        lemma_fundamental_div_mod(q1 as int, TWO64 as int);
        lemma_mod_bound(q1 as int, TWO64 as int);
        assert(qtop * pow2_128() + qbot == qq) by (nonlinear_arith)
            requires
                q1 == TWO64 * qtop + (q1 as int % TWO64 as int),
                qbot == (q1 as int % TWO64 as int) * TWO64 + q2,
                qq == q1 * TWO64 + q2,
                pow2_128() == TWO64 * TWO64,
        ;
        assert(qbot < pow2_128()) by (nonlinear_arith)
            requires
                qbot == (q1 as int % TWO64 as int) * TWO64 + q2,
                (q1 as int % TWO64 as int) < TWO64,
                (q1 as int % TWO64 as int) >= 0,
                q2 < TWO64,
                pow2_128() == TWO64 * TWO64,
        ;
    }
    // Binary search for the integer square root of qq.
    let mut lo: u128 = 0;
    let mut hi: u128 = TWO96;
    proof {
        assert((TWO96 as int) * (TWO96 as int) == pow2_128() * TWO64);
    }
    while lo + 1 < hi
        invariant
            lo < hi <= TWO96,
            lo * lo <= qq,
            qq < hi * hi,
            qtop * pow2_128() + qbot == qq,
            qbot < pow2_128(),
        decreases hi - lo,
    {
        let mid: u128 = lo + (hi - lo) / 2;
        let (mh, ml) = mul_u128(mid, mid);
        let le: bool = if mh < qtop {
            true
        } else if mh == qtop {
            ml <= qbot
        } else {
            false
        };
        proof {
            // Two-limb comparison agrees with the mathematical order.
            if mh < qtop {
                assert(mh * pow2_128() + ml <= qtop * pow2_128() + qbot) by (nonlinear_arith)
                    requires
                        mh < qtop,
                        ml < pow2_128(),
                        qbot >= 0,
                ;
            }
            if mh > qtop {
                assert(mh * pow2_128() + ml > qtop * pow2_128() + qbot) by (nonlinear_arith)
                    requires
                        mh > qtop,
                        qbot < pow2_128(),
                        ml >= 0,
                ;
            }
            assert(le == (mid * mid <= qq));
        }
        if le {
            lo = mid;
        } else {
            hi = mid;
        }
    }
    proof {
        assert(qq < (lo + 1) * (lo + 1));
        assert(lo < TWO96);
    }
    lo
}

/// The square-root price is unique: two values meeting the
/// characterization for the same ratio are equal.
pub proof fn lemma_sqrt_price_unique(num: int, den: int, r1: int, r2: int)
    requires
        r1 >= 0,
        r2 >= 0,
        spec_is_sqrt_price_x64(num, den, r1),
        spec_is_sqrt_price_x64(num, den, r2),
    ensures
        r1 == r2,
{
    let q = spec_ratio_x128(num, den);
    assert(r1 <= r2 && r2 <= r1) by (nonlinear_arith)
        requires
            r1 >= 0,
            r2 >= 0,
            r1 * r1 <= q,
            q < (r1 + 1) * (r1 + 1),
            r2 * r2 <= q,
            q < (r2 + 1) * (r2 + 1),
    ;
}

/// The conversion is monotone in the price: a ratio at most another's
/// (compared by cross-multiplication) never yields a larger square-root
/// price.
pub proof fn lemma_sqrt_price_monotone(n1: int, d1: int, n2: int, d2: int, r1: int, r2: int)
    requires
        n1 >= 0,
        d1 >= 1,
        n2 >= 0,
        d2 >= 1,
        r1 >= 0,
        r2 >= 0,
        n1 * d2 <= n2 * d1,
        spec_is_sqrt_price_x64(n1, d1, r1),
        spec_is_sqrt_price_x64(n2, d2, r2),
    ensures
        r1 <= r2,
{
    let q1 = spec_ratio_x128(n1, d1);
    let q2 = spec_ratio_x128(n2, d2);
    lemma_fundamental_div_mod(n1 * pow2_128(), d1);
    lemma_mod_bound(n1 * pow2_128(), d1);
    // q1 * d1 <= n1 * 2^128, hence q1 * d1 * d2 <= n1 * d2 * 2^128
    // <= n2 * d1 * 2^128, hence q1 * d2 <= n2 * 2^128.
    assert(q1 * d2 <= n2 * pow2_128()) by (nonlinear_arith)
        requires
            n1 * pow2_128() == d1 * q1 + (n1 * pow2_128()) % d1,
            (n1 * pow2_128()) % d1 >= 0,
            n1 * d2 <= n2 * d1,
            d1 >= 1,
            d2 >= 1,
    ;
    lemma_div_is_ordered(q1 * d2, n2 * pow2_128(), d2);
    assert((q1 * d2) / d2 == q1) by {
        vstd::arithmetic::div_mod::lemma_div_multiples_vanish(q1, d2);
        vstd::arithmetic::mul::lemma_mul_is_commutative(q1, d2);
    }
    assert(q1 <= q2);
    assert(r1 <= r2) by (nonlinear_arith)
        requires
            r1 >= 0,
            r2 >= 0,
            r1 * r1 <= q1,
            q1 <= q2,
            q2 < (r2 + 1) * (r2 + 1),
    ;
}

/// Ten to the power of `decimals`, the scale factor of a token's decimal
/// precision.
pub open spec fn spec_pow10(e: nat) -> int
    decreases e,
{
    if e == 0 {
        1int
    } else {
        10 * spec_pow10((e - 1) as nat)
    }
}

/// The decimal scale factor of a token, as an unsigned 64-bit word.
/// Exponents whose power does not fit the word are rejected.
pub fn multipler(decimals: u8) -> (r: Result<u64, PlanError>)
    ensures
        r is Ok <==> decimals <= 19,
        r is Ok ==> r->Ok_0 == spec_pow10(decimals as nat),
        r is Err ==> r == Err::<u64, PlanError>(PlanError::ArithmeticOverflow),
{
    if decimals > 19 {
        return Err(PlanError::ArithmeticOverflow);
    }
    let mut acc: u64 = 1;
    let mut i: u8 = 0;
    while i < decimals
        invariant
            i <= decimals <= 19,
            acc == spec_pow10(i as nat),
        decreases decimals - i,
    {
        proof {
            // While i is at most eighteen the accumulator stays within
            // ten to the eighteenth, so one more factor of ten fits.
            assert(spec_pow10(18) == 1000000000000000000) by {
                reveal_with_fuel(spec_pow10, 20);
            }
            lemma_pow10_monotone(i as nat, 18);
            assert(spec_pow10((i + 1) as nat) == 10 * spec_pow10(i as nat));
        }
        acc = acc * 10;
        i = i + 1;
    }
    Ok(acc)
}

/// Every power of ten is positive.
pub proof fn lemma_pow10_positive(e: nat)
    ensures
        spec_pow10(e) >= 1,
    decreases e,
{
    if e > 0 {
        lemma_pow10_positive((e - 1) as nat);
    }
}

/// Powers of ten grow with the exponent.
pub proof fn lemma_pow10_monotone(e: nat, f: nat)
    requires
        e <= f,
    ensures
        spec_pow10(e) <= spec_pow10(f),
    decreases f,
{
    if f > e {
        lemma_pow10_monotone(e, (f - 1) as nat);
        lemma_pow10_positive((f - 1) as nat);
    }
}

/// Convert a human-scale price into the square-root fixed-point form,
/// first rescaling by the two tokens' decimal factors. A zero price is a
/// domain error; a scale product that does not fit its word is an
/// arithmetic overflow.
pub fn price_to_sqrt_price_x64(
    price: &PriceRatio,
    decimals_0: u8,
    decimals_1: u8,
) -> (r: Result<u128, PlanError>)
    requires
        price.wf(),
    ensures
        r is Ok ==> price.numerator >= 1 && spec_is_sqrt_price_x64(
            price.numerator * spec_pow10(decimals_1 as nat),
            price.denominator * spec_pow10(decimals_0 as nat),
            r->Ok_0 as int,
        ),
        r is Ok ==> r->Ok_0 < TWO96,
        r is Ok <==> price.numerator >= 1 && decimals_0 <= 19 && decimals_1 <= 19
            && price.numerator * spec_pow10(decimals_1 as nat) <= u64::MAX
            && price.denominator * spec_pow10(decimals_0 as nat) <= u64::MAX,
        price.numerator == 0 ==> r == Err::<u128, PlanError>(PlanError::DomainError),
        r is Err && price.numerator >= 1 ==> r == Err::<u128, PlanError>(
            PlanError::ArithmeticOverflow,
        ),
{
    if price.numerator == 0 {
        return Err(PlanError::DomainError);
    }
    let m1: u64 = match multipler(decimals_1) {
        Ok(m) => m,
        Err(e) => {
            return Err(e);
        },
    };
    let m0: u64 = match multipler(decimals_0) {
        Ok(m) => m,
        Err(e) => {
            return Err(e);
        },
    };
    proof {
        lemma_pow10_positive(decimals_0 as nat);
        lemma_pow10_positive(decimals_1 as nat);
    }
    let num: u64 = match scale_u64(price.numerator, m1) {
        Ok(v) => v,
        Err(e) => {
            return Err(e);
        },
    };
    let den: u64 = match scale_u64(price.denominator, m0) {
        Ok(v) => v,
        Err(e) => {
            return Err(e);
        },
    };
    proof {
        assert(num >= 1 && den >= 1) by (nonlinear_arith)
            requires
                num == price.numerator * m1,
                den == price.denominator * m0,
                price.numerator >= 1,
                price.denominator >= 1,
                m0 >= 1,
                m1 >= 1,
        ;
    }
    Ok(sqrt_price_x64_from_ratio(num, den))
}

/// Multiply two unsigned words, rejecting products that do not fit.
fn scale_u64(x: u64, m: u64) -> (r: Result<u64, PlanError>)
    requires
        m >= 1,
    ensures
        r is Ok <==> x * m <= u64::MAX,
        r is Ok ==> r->Ok_0 == x * m,
        r is Err ==> r == Err::<u64, PlanError>(PlanError::ArithmeticOverflow),
{
    proof {
        assert(x * m <= (u64::MAX as int) * (u64::MAX as int)) by (nonlinear_arith)
            requires
                x <= u64::MAX,
                m <= u64::MAX,
        ;
    }
    let wide: u128 = (x as u128) * (m as u128);
    if wide > u64::MAX as u128 {
        Err(PlanError::ArithmeticOverflow)
    } else {
        Ok(wide as u64)
    }
}

} // verus!
