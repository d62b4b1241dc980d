//! Tick alignment: snapping an arbitrary tick index to the nearest valid
//! multiple of the pool's tick spacing, rounding toward negative infinity.
use vstd::prelude::*;
use vstd::arithmetic::div_mod::{
    lemma_fundamental_div_mod,
    lemma_fundamental_div_mod_converse,
    lemma_div_multiples_vanish,
    lemma_mod_multiples_basic,
    lemma_mod_bound,
};
use vstd::arithmetic::mul::lemma_mul_is_commutative;

verus! {

/// The alignment of `tick` to the grid of multiples of `spacing`, rounded
/// toward negative infinity. For `spacing > 0` Euclidean division is floor
/// division, so this is `spacing * floor(tick / spacing)`.
pub open spec fn spec_align(tick: int, spacing: int) -> int {
    (tick / spacing) * spacing
}

/// The aligned tick lies in the half-open window `(tick - spacing, tick]`
/// and is an exact multiple of the spacing.
pub proof fn lemma_align_bounds(tick: int, spacing: int)
    requires
        spacing >= 1,
    ensures
        spec_align(tick, spacing) <= tick,
        tick - spacing < spec_align(tick, spacing),
        spec_align(tick, spacing) % spacing == 0,
{
    lemma_fundamental_div_mod(tick, spacing);
    lemma_mod_bound(tick, spacing);
    lemma_mod_multiples_basic(tick / spacing, spacing);
    lemma_mul_is_commutative(spacing, tick / spacing);
}

/// Alignment is idempotent: a tick already on the grid aligns to itself.
pub proof fn lemma_align_idempotent(tick: int, spacing: int)
    requires
        spacing >= 1,
    ensures
        spec_align(spec_align(tick, spacing), spacing) == spec_align(tick, spacing),
{
    lemma_div_multiples_vanish(tick / spacing, spacing);
}

/// Snap `tick` down to a multiple of `spacing`. Rust's `/` truncates toward
/// zero, so for a negative tick that is not already on the grid the quotient
/// is decremented by one before rescaling: alignment always rounds toward
/// negative infinity, never toward zero.
pub fn tick_with_spacing(tick: i32, tick_spacing: i32) -> (r: i32)
    requires
        tick_spacing >= 1,
        tick - (tick_spacing - 1) >= i32::MIN,
    ensures
        r == spec_align(tick as int, tick_spacing as int),
        r % tick_spacing == 0,
        r <= tick,
        tick < r + tick_spacing,
{
    let ghost t = tick as int;
    let ghost s = tick_spacing as int;
    let ghost q = t / s;
    let ghost m = t % s;
    proof {
        lemma_fundamental_div_mod(t, s);
        lemma_mod_bound(t, s);
    }
    let mut compressed: i32 = tick / tick_spacing;
    let rem: i32 = tick % tick_spacing;
    proof {
        // Rust `/` and `%` truncate toward zero; relate them to the Euclidean
        // quotient and remainder that `q` and `m` denote.
        if tick < 0 {
            let n = -t;
            let qe = n / s;
            let me = n % s;
            lemma_fundamental_div_mod(n, s);
            lemma_mod_bound(n, s);
            if me == 0 {
                assert(t == (-qe) * s + 0) by (nonlinear_arith)
                    requires
                        n == s * qe + me,
                        t == -n,
                        me == 0,
                ;
                lemma_fundamental_div_mod_converse(t, s, -qe, 0);
            } else {
                assert(t == (-qe - 1) * s + (s - me)) by (nonlinear_arith)
                    requires
                        n == s * qe + me,
                        t == -n,
                ;
                lemma_fundamental_div_mod_converse(t, s, -qe - 1, s - me);
            }
        }
        assert(rem != 0 ==> compressed == (if tick < 0 { q + 1 } else { q }));
        assert(rem == 0 ==> compressed == q);
    }
    if tick < 0 && rem != 0 {
        compressed -= 1; // round towards negative infinity
    }
    proof {
        assert(compressed == q);
        assert(q * s == t - m && compressed * s == t - m) by (nonlinear_arith)
            requires
                compressed == q,
                t == s * q + m,
        ;
        lemma_mod_multiples_basic(q, s);
    }
    compressed * tick_spacing
}

} // verus!
