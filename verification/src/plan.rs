//! The transaction planner: orchestrates price conversion, tick
//! alignment, liquidity and delta math, slippage and transfer-fee
//! padding, address derivation and position matching into one ordered
//! plan. Any failure aborts the whole plan; nothing is retried.
use vstd::prelude::*;
use vstd::arithmetic::div_mod::{
    lemma_fundamental_div_mod,
    lemma_fundamental_div_mod_converse,
    lemma_mod_bound,
    lemma_div_is_ordered,
    lemma_div_multiples_vanish,
};
use crate::address::{
    Address,
    pda_of,
    spec_tick_array_seed,
    spec_position_seed,
    spec_i32_be,
    tick_array_address,
    protocol_position_address,
    personal_position_address,
};
use crate::amm::{
    MIN_TICK,
    MAX_TICK,
    MIN_SQRT_PRICE_X64,
    MAX_SQRT_PRICE_X64,
    TICK_ARRAY_SIZE,
    sqrt_price_of_tick,
    tick_of_sqrt_price,
    get_sqrt_price_at_tick,
    get_tick_at_sqrt_price,
    get_liquidity_from_single_amount_0,
    get_liquidity_from_single_amount_1,
    get_delta_amounts_signed,
    get_array_start_index,
    spec_liquidity_step_0,
    spec_liquidity_from_single_amount_0,
    spec_liquidity_from_single_amount_1,
    spec_delta_0_up,
    spec_delta_1_up,
    pow2_192,
};
use crate::fee::{MintFeeState, get_pool_mints_inverse_fee, spec_transfer_inverse_fee};
use crate::position::{Position, find_position, spec_position_matches};
use crate::price::{PriceRatio, price_to_sqrt_price_x64, spec_is_sqrt_price_x64, spec_pow10};
use crate::slippage::{SlippageRatio, amount_with_slippage, spec_amount_with_slippage, spec_ceil_div};
use crate::tick::{tick_with_spacing, spec_align};
use crate::wide::{mul_u128, pow2_128, TWO64};
use crate::PlanError;

verus! {

/// The pool state a plan reads, as plain values: a point-in-time
/// snapshot of the ledger account.
#[derive(Clone, Copy, Debug)]
pub struct PoolSnapshot {
    pub tick_spacing: u16,
    pub tick_current: i32,
    pub sqrt_price_x64: u128,
    pub mint_decimals_0: u8,
    pub mint_decimals_1: u8,
    pub token_mint_0: Address,
    pub token_mint_1: Address,
    pub token_vault_0: Address,
    pub token_vault_1: Address,
}

/// Everything the instruction packager needs for one "increase
/// liquidity" operation: aligned tick bounds, the computed liquidity,
/// raw deltas, slippage-and-fee-adjusted maxima, derived addresses,
/// and the matched position, if any.
#[derive(Clone, Copy, Debug)]
pub struct IncreasePlan {
    pub tick_lower_index: i32,
    pub tick_upper_index: i32,
    pub tick_array_lower_start_index: i32,
    pub tick_array_upper_start_index: i32,
    pub liquidity: u128,
    pub amount_0: u64,
    pub amount_1: u64,
    pub amount_0_with_slippage: u64,
    pub amount_1_with_slippage: u64,
    pub transfer_fee_0: u64,
    pub transfer_fee_1: u64,
    pub amount_0_max: u64,
    pub amount_1_max: u64,
    pub tick_array_lower: Address,
    pub tick_array_upper: Address,
    pub protocol_position: Address,
    pub personal_position: Option<Address>,
    pub matched_position: Option<Position>,
}

/// The aligned tick a human price maps to: convert the decimal-scaled
/// ratio to a sqrt price, take its tick and snap it down to the grid.
pub open spec fn spec_is_aligned_tick_of_price(
    price: PriceRatio,
    decimals_0: u8,
    decimals_1: u8,
    spacing: int,
    tick: int,
) -> bool {
    exists|p: u128|
        #![auto]
        spec_is_sqrt_price_x64(
            price.numerator * spec_pow10(decimals_1 as nat),
            price.denominator * spec_pow10(decimals_0 as nat),
            p as int,
        ) && tick == spec_align(tick_of_sqrt_price(p) as int, spacing)
}

/// Floor of `x * y / 2^64` for factors below two to the ninety-sixth.
fn floor_mul_shr64(x: u128, y: u128) -> (r: u128)
    requires
        x < TWO64 * 0x1_0000_0000,
        y < TWO64 * 0x1_0000_0000,
    ensures
        r == (x * y) / (TWO64 as int),
{
    let (h, l) = mul_u128(x, y);
    proof {
        assert(h < TWO64) by (nonlinear_arith)
            requires
                h * pow2_128() + l == x * y,
                x < TWO64 * 0x1_0000_0000,
                y < TWO64 * 0x1_0000_0000,
                l >= 0,
                h >= 0,
                pow2_128() == TWO64 * TWO64,
        ;
        lemma_fundamental_div_mod(l as int, TWO64 as int);
        lemma_mod_bound(l as int, TWO64 as int);
        assert(x * y == TWO64 * (h * TWO64 + l as int / TWO64 as int) + l as int % TWO64 as int)
            by (nonlinear_arith)
            requires
                h * pow2_128() + l == x * y,
                l == TWO64 * (l as int / TWO64 as int) + l as int % TWO64 as int,
                pow2_128() == TWO64 * TWO64,
        ;
        lemma_fundamental_div_mod_converse(
            (x * y) as int,
            TWO64 as int,
            h as int * TWO64 as int + l as int / TWO64 as int,
            l as int % TWO64 as int,
        );
    }
    h * TWO64 + l / TWO64
}

/// The ceiling of a division is bounded by any `y` whose product with
/// the divisor covers the dividend.
proof fn lemma_ceil_div_le(x: int, y: int, d: int)
    requires
        d >= 1,
        x >= 0,
        y >= 0,
        x <= y * d,
    ensures
        spec_ceil_div(x, d) <= y,
{
    lemma_div_is_ordered(x + d - 1, y * d + d - 1, d);
    lemma_fundamental_div_mod_converse(y * d + d - 1, d, y, d - 1);
}

/// Ceiling division is monotone in the dividend.
proof fn lemma_ceil_div_mono(x1: int, x2: int, d: int)
    requires
        d >= 1,
        x1 <= x2,
    ensures
        spec_ceil_div(x1, d) <= spec_ceil_div(x2, d),
{
    lemma_div_is_ordered(x1 + d - 1, x2 + d - 1, d);
}

/// The conservative bound under which the liquidity-from-token-0 step
/// is known to fit its word: a wide price gap, or an intermediate no
/// larger than the gap rescaled.
pub open spec fn spec_liquidity_guard_0(low: int, high: int) -> bool {
    ||| high - low >= TWO64
    ||| (low * high) / (TWO64 as int) <= (high - low) * (TWO64 as int)
}

/// Guard for the liquidity-from-token-0 step: the result decides the
/// conservative bound exactly, and a true result proves the step's
/// quotient fits an unsigned 128-bit word.
fn check_liquidity_step_0(low: u128, high: u128, amount: u64) -> (r: bool)
    requires
        1 <= low < high,
        high < TWO64 * 0x1_0000_0000,
    ensures
        r == spec_liquidity_guard_0(low as int, high as int),
        r ==> spec_liquidity_step_0(low as int, high as int, amount as int) <= u128::MAX,
{
    let inter: u128 = floor_mul_shr64(low, high);
    let gap: u128 = high - low;
    let ok: bool = if gap >= TWO64 {
        true
    } else {
        inter <= gap * TWO64
    };
    proof {
        assert(ok == spec_liquidity_guard_0(low as int, high as int));
        if ok {
            assert(inter <= gap * TWO64) by (nonlinear_arith)
                requires
                    gap >= TWO64 ==> inter < TWO64 * TWO64,
                    gap < TWO64 ==> inter <= gap * TWO64,
                    inter < pow2_128(),
                    pow2_128() == TWO64 * TWO64,
                    gap >= 1,
            ;
            assert(amount * inter <= (TWO64 - 1) * TWO64 * gap) by (nonlinear_arith)
                requires
                    amount <= TWO64 - 1,
                    inter <= gap * TWO64,
                    inter >= 0,
                    gap >= 1,
            ;
            lemma_div_is_ordered(
                amount as int * inter as int,
                (TWO64 - 1) * TWO64 as int * gap as int,
                gap as int,
            );
            lemma_div_multiples_vanish((TWO64 - 1) * TWO64 as int, gap as int);
            assert(((TWO64 - 1) * TWO64 as int) * gap as int == gap as int * ((TWO64 - 1)
                * TWO64 as int)) by (nonlinear_arith);
            assert(spec_liquidity_step_0(low as int, high as int, amount as int) <= (TWO64 - 1)
                * TWO64);
            assert((TWO64 - 1) * TWO64 < pow2_128()) by (nonlinear_arith)
                requires
                    pow2_128() == TWO64 * TWO64,
            ;
        }
    }
    ok
}

/// The conservative bound under which the token-0 delta is known to
/// fit its word: the liquidity-gap product fits one word and the two
/// quotient estimates stay below the 64-bit range.
pub open spec fn spec_delta_0_guard(low: int, high: int, liquidity: int) -> bool {
    let g = liquidity * (high - low);
    &&& g < pow2_128()
    &&& g / high < TWO64 - 1
    &&& ((g / high + 1) * (TWO64 as int)) / low < TWO64 - 1
}

/// Guard for the token-0 delta: the result decides the conservative
/// bound exactly, and a true result proves the intermediate product,
/// the inner ceiling and the final delta all fit their words.
fn check_delta_0_up(low: u128, high: u128, liquidity: u128) -> (r: bool)
    requires
        1 <= low <= high,
        high < TWO64 * 0x1_0000_0000,
    ensures
        r == spec_delta_0_guard(low as int, high as int, liquidity as int),
        r ==> {
            &&& liquidity * (high - low) < pow2_192()
            &&& spec_ceil_div(
                liquidity * TWO64 as int * (high - low),
                high as int,
            ) <= u128::MAX
            &&& spec_delta_0_up(low as int, high as int, liquidity as int) <= u64::MAX
        },
{
    let (h1, l1) = mul_u128(liquidity, high - low);
    if h1 != 0 {
        proof {
            assert(liquidity * (high - low) >= pow2_128());
        }
        return false;
    }
    let q3: u128 = l1 / high;
    proof {
        assert(l1 == liquidity * (high - low));
    }
    if q3 >= TWO64 - 1 {
        return false;
    }
    let t: u128 = (q3 + 1) * TWO64;
    let q4: u128 = t / low;
    let ok: bool = q4 < 0xFFFF_FFFF_FFFF_FFFF;
    proof {
        assert(ok == spec_delta_0_guard(low as int, high as int, liquidity as int));
        if ok {
            let g = l1 as int;
            assert(liquidity * (high - low) == g);
            assert(g < pow2_128());
            assert(pow2_128() < pow2_192());
            lemma_fundamental_div_mod(g, high as int);
            lemma_mod_bound(g, high as int);
            // g <= (q3 + 1) * high, so the inner ceiling is at most
            // (q3 + 1) * 2^64 == t.
            assert(g * TWO64 <= ((q3 + 1) * TWO64) * high) by (nonlinear_arith)
                requires
                    g == high * q3 + g % (high as int),
                    0 <= (g % (high as int)) < high,
                    high >= 1,
            ;
            lemma_ceil_div_le(g * TWO64, (q3 + 1) * TWO64 as int, high as int);
            assert(liquidity * TWO64 as int * (high - low) == g * TWO64) by (nonlinear_arith)
                requires
                    liquidity * (high - low) == g,
            ;
            assert(t == (q3 + 1) * TWO64);
            assert(t <= (TWO64 - 1) * TWO64) by (nonlinear_arith)
                requires
                    q3 + 1 <= TWO64 - 1,
                    t == (q3 + 1) * TWO64,
            ;
            assert((TWO64 - 1) * TWO64 < pow2_128()) by (nonlinear_arith)
                requires
                    pow2_128() == TWO64 * TWO64,
            ;
            // The outer ceiling is monotone, and bounded through t's own
            // division by low.
            lemma_ceil_div_mono(
                spec_ceil_div(g * TWO64, high as int),
                t as int,
                low as int,
            );
            lemma_fundamental_div_mod(t as int, low as int);
            lemma_mod_bound(t as int, low as int);
            assert(t as int <= (q4 + 1) * low) by (nonlinear_arith)
                requires
                    t == low * q4 + t as int % low as int,
                    0 <= (t as int % low as int) < low,
                    low >= 1,
            ;
            lemma_ceil_div_le(t as int, q4 as int + 1, low as int);
            // The inner ceiling is non-negative, so monotonicity applies
            // from it.
            assert(spec_ceil_div(g * TWO64, high as int) >= 0) by {
                assert(g * TWO64 >= 0) by (nonlinear_arith)
                    requires
                        g >= 0,
                ;
                lemma_div_is_ordered(0, g * TWO64 + high - 1, high as int);
            }
        }
    }
    ok
}

/// The conservative bound under which the token-1 delta is known to
/// fit its word: the liquidity-gap product fits one word and its
/// rescaled ceiling fits 64 bits.
pub open spec fn spec_delta_1_guard(low: int, high: int, liquidity: int) -> bool {
    let g = liquidity * (high - low);
    &&& g < pow2_128()
    &&& spec_ceil_div(g, TWO64 as int) <= u64::MAX
}

/// Guard for the token-1 delta: the result decides the conservative
/// bound exactly, and a true result proves the delta fits an unsigned
/// 64-bit word.
fn check_delta_1_up(low: u128, high: u128, liquidity: u128) -> (r: bool)
    requires
        low <= high,
    ensures
        r == spec_delta_1_guard(low as int, high as int, liquidity as int),
        r ==> spec_delta_1_up(low as int, high as int, liquidity as int) <= u64::MAX,
{
    let (h1, l1) = mul_u128(liquidity, high - low);
    if h1 != 0 {
        proof {
            assert(liquidity * (high - low) >= pow2_128());
        }
        return false;
    }
    let q: u128 = l1 / TWO64;
    let rem: u128 = l1 % TWO64;
    let c: u128 = if rem != 0 {
        q + 1
    } else {
        q
    };
    let ok: bool = c <= 0xFFFF_FFFF_FFFF_FFFF;
    proof {
        let g = l1 as int;
        assert(liquidity * (high - low) == g);
        lemma_fundamental_div_mod(g, TWO64 as int);
        lemma_mod_bound(g, TWO64 as int);
        if rem != 0 {
            lemma_fundamental_div_mod_converse(
                g + TWO64 - 1,
                TWO64 as int,
                q as int + 1,
                rem as int - 1,
            );
        } else {
            lemma_fundamental_div_mod_converse(
                g + TWO64 - 1,
                TWO64 as int,
                q as int,
                TWO64 as int - 1,
            );
        }
        assert(spec_ceil_div(g, TWO64 as int) == c);
        assert(ok == spec_delta_1_guard(low as int, high as int, liquidity as int));
    }
    ok
}


/// The plan the pipeline owes for one converted pair of boundary sqrt
/// prices: every stage's domain, guard, fee and address condition,
/// written over the math library's named results. Mirrors the
/// pipeline's own order: align, re-derive prices, liquidity, deltas,
/// slippage, fees, addresses, match.
pub open spec fn spec_increase_chain(
    pool: PoolSnapshot,
    program: Seq<u8>,
    pool_id: Seq<u8>,
    positions: Seq<Position>,
    is_base_0: bool,
    input_amount: u64,
    slippage: SlippageRatio,
    cfg_0: Option<crate::fee::TransferFeeConfigState>,
    cfg_1: Option<crate::fee::TransferFeeConfigState>,
    epoch: u64,
    lower_sqrt: u128,
    upper_sqrt: u128,
) -> bool {
    let s = pool.tick_spacing as int;
    let span = s * TICK_ARRAY_SIZE as int;
    let tli = spec_align(tick_of_sqrt_price(lower_sqrt) as int, s);
    let tui = spec_align(tick_of_sqrt_price(upper_sqrt) as int, s);
    let a = sqrt_price_of_tick(tli) as int;
    let b = sqrt_price_of_tick(tui) as int;
    let p = pool.sqrt_price_x64 as int;
    let liq = if is_base_0 {
        spec_liquidity_from_single_amount_0(p, a, b, input_amount as int)
    } else {
        spec_liquidity_from_single_amount_1(p, a, b, input_amount as int)
    };
    let tc = pool.tick_current as int;
    let d0 = if tc < tli {
        spec_delta_0_up(a, b, liq)
    } else if tc < tui {
        spec_delta_0_up(p, b, liq)
    } else {
        0int
    };
    let d1 = if tc < tli {
        0int
    } else if tc < tui {
        spec_delta_1_up(a, p, liq)
    } else {
        spec_delta_1_up(a, b, liq)
    };
    let s0 = spec_amount_with_slippage(d0, slippage.numerator as int, slippage.denominator as int, true);
    let s1 = spec_amount_with_slippage(d1, slippage.numerator as int, slippage.denominator as int, true);
    let f0 = spec_transfer_inverse_fee(cfg_0, epoch, s0 as u64);
    let f1 = spec_transfer_inverse_fee(cfg_1, epoch, s1 as u64);
    &&& MIN_SQRT_PRICE_X64 <= lower_sqrt < MAX_SQRT_PRICE_X64
    &&& MIN_SQRT_PRICE_X64 <= upper_sqrt < MAX_SQRT_PRICE_X64
    &&& tli < tui
    &&& MIN_TICK <= tli
    &&& tui <= MAX_TICK
    &&& (is_base_0 && p <= a ==> spec_liquidity_guard_0(a, b))
    &&& (is_base_0 && a < p < b ==> spec_liquidity_guard_0(p, b))
    &&& liq <= i128::MAX
    &&& (tc < tli ==> spec_delta_0_guard(a, b, liq))
    &&& (tli <= tc < tui ==> a <= p <= b && spec_delta_0_guard(p, b, liq)
        && spec_delta_1_guard(a, p, liq))
    &&& (tui <= tc ==> spec_delta_1_guard(a, b, liq))
    &&& f0 is Some
    &&& f1 is Some
    &&& s0 + f0->0 <= u64::MAX
    &&& s1 + f1->0 <= u64::MAX
    &&& pda_of(
        seq![spec_tick_array_seed(), pool_id, spec_i32_be(spec_align(tli, span))],
        program,
    ) is Some
    &&& pda_of(
        seq![spec_tick_array_seed(), pool_id, spec_i32_be(spec_align(tui, span))],
        program,
    ) is Some
    &&& pda_of(
        seq![spec_position_seed(), pool_id, spec_i32_be(tli), spec_i32_be(tui)],
        program,
    ) is Some
    &&& (forall|i: int|
        (0 <= i < positions.len() && (#[trigger] positions[i]).pool_id@ == pool_id
            && positions[i].tick_lower_index == tli && positions[i].tick_upper_index == tui
            && (forall|j: int|
            0 <= j < i ==> !(positions[j].pool_id@ == pool_id
                && positions[j].tick_lower_index == tli
                && positions[j].tick_upper_index == tui))) ==> pda_of(
            seq![spec_position_seed(), positions[i].nft_mint@],
            program,
        ) is Some)
}

/// Every condition under which an increase-liquidity plan is owed: a
/// valid snapshot, both boundary prices convertible within the machine
/// words, and, for the (unique) pair of converted sqrt prices, the
/// whole downstream chain of domain, guard, fee and address
/// conditions.
pub open spec fn spec_increase_feasible(
    pool: PoolSnapshot,
    program: Seq<u8>,
    pool_id: Seq<u8>,
    positions: Seq<Position>,
    lower_price: PriceRatio,
    upper_price: PriceRatio,
    is_base_0: bool,
    input_amount: u64,
    slippage: SlippageRatio,
    cfg_0: Option<crate::fee::TransferFeeConfigState>,
    cfg_1: Option<crate::fee::TransferFeeConfigState>,
    epoch: u64,
) -> bool {
    let ln = lower_price.numerator * spec_pow10(pool.mint_decimals_1 as nat);
    let ld = lower_price.denominator * spec_pow10(pool.mint_decimals_0 as nat);
    let un = upper_price.numerator * spec_pow10(pool.mint_decimals_1 as nat);
    let ud = upper_price.denominator * spec_pow10(pool.mint_decimals_0 as nat);
    &&& pool.tick_spacing >= 1
    &&& MIN_SQRT_PRICE_X64 <= pool.sqrt_price_x64 <= MAX_SQRT_PRICE_X64
    &&& lower_price.numerator >= 1
    &&& upper_price.numerator >= 1
    &&& pool.mint_decimals_0 <= 19
    &&& pool.mint_decimals_1 <= 19
    &&& ln <= u64::MAX
    &&& ld <= u64::MAX
    &&& un <= u64::MAX
    &&& ud <= u64::MAX
    &&& (forall|pl: int, pu: int|
        #![trigger spec_is_sqrt_price_x64(ln, ld, pl), spec_is_sqrt_price_x64(un, ud, pu)]
        0 <= pl && 0 <= pu && spec_is_sqrt_price_x64(ln, ld, pl) && spec_is_sqrt_price_x64(
            un,
            ud,
            pu,
        ) ==> spec_increase_chain(
            pool,
            program,
            pool_id,
            positions,
            is_base_0,
            input_amount,
            slippage,
            cfg_0,
            cfg_1,
            epoch,
            pl as u128,
            pu as u128,
        ))
}

/// Build the whole increase-liquidity plan from a pool snapshot, the
/// caller's positions, the requested price range, the single-sided
/// deposit, the slippage tolerance and the two mints' fee state. Each
/// step depends strictly on the previous; the first failure aborts the
/// plan. Slippage padding and fee padding are additive, never
/// compounded.
#[verifier::rlimit(60)]
pub fn plan_increase_liquidity(
    pool: &PoolSnapshot,
    program: &Address,
    pool_id: &Address,
    positions: &Vec<Position>,
    tick_lower_price: &PriceRatio,
    tick_upper_price: &PriceRatio,
    is_base_0: bool,
    input_amount: u64,
    slippage: &SlippageRatio,
    mint_0_fee: &MintFeeState,
    mint_1_fee: &MintFeeState,
    epoch: u64,
) -> (r: Result<IncreasePlan, PlanError>)
    requires
        tick_lower_price.wf(),
        tick_upper_price.wf(),
        slippage.wf(),
        mint_0_fee.transfer_fee_config matches Some(c) ==> c.wf(),
        mint_1_fee.transfer_fee_config matches Some(c) ==> c.wf(),
    ensures
        r matches Ok(plan) ==> {
            &&& pool.tick_spacing >= 1
            &&& spec_is_aligned_tick_of_price(
                *tick_lower_price,
                pool.mint_decimals_0,
                pool.mint_decimals_1,
                pool.tick_spacing as int,
                plan.tick_lower_index as int,
            )
            &&& spec_is_aligned_tick_of_price(
                *tick_upper_price,
                pool.mint_decimals_0,
                pool.mint_decimals_1,
                pool.tick_spacing as int,
                plan.tick_upper_index as int,
            )
            &&& plan.tick_lower_index < plan.tick_upper_index
            &&& MIN_TICK <= plan.tick_lower_index <= MAX_TICK
            &&& MIN_TICK <= plan.tick_upper_index <= MAX_TICK
            &&& (is_base_0 ==> plan.liquidity == spec_liquidity_from_single_amount_0(
                pool.sqrt_price_x64 as int,
                sqrt_price_of_tick(plan.tick_lower_index as int) as int,
                sqrt_price_of_tick(plan.tick_upper_index as int) as int,
                input_amount as int,
            ))
            &&& (!is_base_0 ==> plan.liquidity == spec_liquidity_from_single_amount_1(
                pool.sqrt_price_x64 as int,
                sqrt_price_of_tick(plan.tick_lower_index as int) as int,
                sqrt_price_of_tick(plan.tick_upper_index as int) as int,
                input_amount as int,
            ))
            &&& (pool.tick_current < plan.tick_lower_index ==> plan.amount_0
                == spec_delta_0_up(
                sqrt_price_of_tick(plan.tick_lower_index as int) as int,
                sqrt_price_of_tick(plan.tick_upper_index as int) as int,
                plan.liquidity as int,
            ) && plan.amount_1 == 0)
            &&& (plan.tick_lower_index <= pool.tick_current < plan.tick_upper_index ==> {
                &&& plan.amount_0 == spec_delta_0_up(
                    pool.sqrt_price_x64 as int,
                    sqrt_price_of_tick(plan.tick_upper_index as int) as int,
                    plan.liquidity as int,
                )
                &&& plan.amount_1 == spec_delta_1_up(
                    sqrt_price_of_tick(plan.tick_lower_index as int) as int,
                    pool.sqrt_price_x64 as int,
                    plan.liquidity as int,
                )
            })
            &&& (plan.tick_upper_index <= pool.tick_current ==> plan.amount_0 == 0
                && plan.amount_1 == spec_delta_1_up(
                sqrt_price_of_tick(plan.tick_lower_index as int) as int,
                sqrt_price_of_tick(plan.tick_upper_index as int) as int,
                plan.liquidity as int,
            ))
            &&& plan.amount_0_with_slippage == spec_amount_with_slippage(
                plan.amount_0 as int,
                slippage.numerator as int,
                slippage.denominator as int,
                true,
            )
            &&& plan.amount_1_with_slippage == spec_amount_with_slippage(
                plan.amount_1 as int,
                slippage.numerator as int,
                slippage.denominator as int,
                true,
            )
            &&& spec_transfer_inverse_fee(
                mint_0_fee.transfer_fee_config,
                epoch,
                plan.amount_0_with_slippage,
            ) == Some(plan.transfer_fee_0 as int)
            &&& spec_transfer_inverse_fee(
                mint_1_fee.transfer_fee_config,
                epoch,
                plan.amount_1_with_slippage,
            ) == Some(plan.transfer_fee_1 as int)
            &&& plan.amount_0_max == plan.amount_0_with_slippage + plan.transfer_fee_0
            &&& plan.amount_1_max == plan.amount_1_with_slippage + plan.transfer_fee_1
            &&& plan.tick_array_lower_start_index == spec_align(
                plan.tick_lower_index as int,
                pool.tick_spacing as int * TICK_ARRAY_SIZE as int,
            )
            &&& plan.tick_array_upper_start_index == spec_align(
                plan.tick_upper_index as int,
                pool.tick_spacing as int * TICK_ARRAY_SIZE as int,
            )
            &&& pda_of(
                seq![
                    spec_tick_array_seed(),
                    pool_id@,
                    spec_i32_be(plan.tick_array_lower_start_index as int),
                ],
                program@,
            ) == Some(plan.tick_array_lower@)
            &&& pda_of(
                seq![
                    spec_tick_array_seed(),
                    pool_id@,
                    spec_i32_be(plan.tick_array_upper_start_index as int),
                ],
                program@,
            ) == Some(plan.tick_array_upper@)
            &&& pda_of(
                seq![
                    spec_position_seed(),
                    pool_id@,
                    spec_i32_be(plan.tick_lower_index as int),
                    spec_i32_be(plan.tick_upper_index as int),
                ],
                program@,
            ) == Some(plan.protocol_position@)
            &&& (plan.matched_position matches Some(p) ==> spec_position_matches(
                p,
                pool_id@,
                plan.tick_lower_index,
                plan.tick_upper_index,
            ) && (exists|i: int|
                0 <= i < positions@.len() && positions@[i] == p && forall|j: int|
                    0 <= j < i ==> !spec_position_matches(
                        positions@[j],
                        pool_id@,
                        plan.tick_lower_index,
                        plan.tick_upper_index,
                    )))
            &&& (plan.matched_position is None ==> forall|j: int|
                0 <= j < positions@.len() ==> !spec_position_matches(
                    positions@[j],
                    pool_id@,
                    plan.tick_lower_index,
                    plan.tick_upper_index,
                ))
            &&& (plan.matched_position matches Some(p) ==> plan.personal_position matches Some(a)
                && pda_of(seq![spec_position_seed(), p.nft_mint@], program@) == Some(a@))
            &&& (plan.matched_position is None ==> plan.personal_position is None)
        },
        spec_increase_feasible(
            *pool,
            program@,
            pool_id@,
            positions@,
            *tick_lower_price,
            *tick_upper_price,
            is_base_0,
            input_amount,
            *slippage,
            mint_0_fee.transfer_fee_config,
            mint_1_fee.transfer_fee_config,
            epoch,
        ) ==> r is Ok,
{
    let ghost feas = spec_increase_feasible(
        *pool,
        program@,
        pool_id@,
        positions@,
        *tick_lower_price,
        *tick_upper_price,
        is_base_0,
        input_amount,
        *slippage,
        mint_0_fee.transfer_fee_config,
        mint_1_fee.transfer_fee_config,
        epoch,
    );
    if pool.tick_spacing < 1 {
        return Err(PlanError::RangeError);
    }
    if pool.sqrt_price_x64 < MIN_SQRT_PRICE_X64 || pool.sqrt_price_x64 > MAX_SQRT_PRICE_X64 {
        return Err(PlanError::RangeError);
    }
    // Convert both boundary prices and take their aligned ticks.
    let lower_sqrt = match price_to_sqrt_price_x64(
        tick_lower_price,
        pool.mint_decimals_0,
        pool.mint_decimals_1,
    ) {
        Ok(p) => p,
        Err(e) => {
            return Err(e);
        },
    };
    let upper_sqrt = match price_to_sqrt_price_x64(
        tick_upper_price,
        pool.mint_decimals_0,
        pool.mint_decimals_1,
    ) {
        Ok(p) => p,
        Err(e) => {
            return Err(e);
        },
    };
    proof {
        // Once both conversions have succeeded, feasibility hands the
        // whole downstream chain over for exactly these sqrt prices.
        assert(feas ==> spec_increase_chain(
            *pool,
            program@,
            pool_id@,
            positions@,
            is_base_0,
            input_amount,
            *slippage,
            mint_0_fee.transfer_fee_config,
            mint_1_fee.transfer_fee_config,
            epoch,
            lower_sqrt,
            upper_sqrt,
        )) by {
            if feas {
                assert(spec_is_sqrt_price_x64(
                    tick_lower_price.numerator * spec_pow10(pool.mint_decimals_1 as nat),
                    tick_lower_price.denominator * spec_pow10(pool.mint_decimals_0 as nat),
                    lower_sqrt as int,
                ));
                assert(spec_is_sqrt_price_x64(
                    tick_upper_price.numerator * spec_pow10(pool.mint_decimals_1 as nat),
                    tick_upper_price.denominator * spec_pow10(pool.mint_decimals_0 as nat),
                    upper_sqrt as int,
                ));
                assert(((lower_sqrt as int) as u128) == lower_sqrt);
                assert(((upper_sqrt as int) as u128) == upper_sqrt);
            }
        };
    }
    let lower_tick_raw = match get_tick_at_sqrt_price(lower_sqrt) {
        Ok(t) => t,
        Err(_) => {
            return Err(PlanError::RangeError);
        },
    };
    let upper_tick_raw = match get_tick_at_sqrt_price(upper_sqrt) {
        Ok(t) => t,
        Err(_) => {
            return Err(PlanError::RangeError);
        },
    };
    let spacing: i32 = pool.tick_spacing as i32;
    let tick_lower_index = tick_with_spacing(lower_tick_raw, spacing);
    let tick_upper_index = tick_with_spacing(upper_tick_raw, spacing);
    if tick_lower_index >= tick_upper_index {
        return Err(PlanError::RangeError);
    }
    // Re-derive the effective sqrt prices at the aligned boundaries:
    // alignment changed the ticks, so the boundary prices change too.
    let sqrt_a = match get_sqrt_price_at_tick(tick_lower_index) {
        Ok(p) => p,
        Err(_) => {
            return Err(PlanError::RangeError);
        },
    };
    let sqrt_b = match get_sqrt_price_at_tick(tick_upper_index) {
        Ok(p) => p,
        Err(_) => {
            return Err(PlanError::RangeError);
        },
    };
    proof {
        assert(sqrt_a < sqrt_b);
        assert(MAX_SQRT_PRICE_X64 < TWO64 * 0x1_0000_0000);
    }
    let current = pool.sqrt_price_x64;
    // Compute the liquidity the single-sided deposit supports.
    let liquidity: u128 = if is_base_0 {
        if current <= sqrt_a {
            if !check_liquidity_step_0(sqrt_a, sqrt_b, input_amount) {
                return Err(PlanError::ArithmeticOverflow);
            }
        } else if current < sqrt_b {
            if !check_liquidity_step_0(current, sqrt_b, input_amount) {
                return Err(PlanError::ArithmeticOverflow);
            }
        }
        get_liquidity_from_single_amount_0(current, sqrt_a, sqrt_b, input_amount)
    } else {
        get_liquidity_from_single_amount_1(current, sqrt_a, sqrt_b, input_amount)
    };
    if liquidity > i128::MAX as u128 {
        return Err(PlanError::ArithmeticOverflow);
    }
    // Guard the delta formulas' intermediates before handing the range
    // to the math library.
    if pool.tick_current < tick_lower_index {
        if !check_delta_0_up(sqrt_a, sqrt_b, liquidity) {
            return Err(PlanError::ArithmeticOverflow);
        }
    } else if pool.tick_current < tick_upper_index {
        if current < sqrt_a || current > sqrt_b {
            return Err(PlanError::RangeError);
        }
        if !check_delta_0_up(current, sqrt_b, liquidity) {
            return Err(PlanError::ArithmeticOverflow);
        }
        if !check_delta_1_up(sqrt_a, current, liquidity) {
            return Err(PlanError::ArithmeticOverflow);
        }
    } else {
        if !check_delta_1_up(sqrt_a, sqrt_b, liquidity) {
            return Err(PlanError::ArithmeticOverflow);
        }
    }
    let (amount_0, amount_1) = match get_delta_amounts_signed(
        pool.tick_current,
        current,
        tick_lower_index,
        tick_upper_index,
        liquidity as i128,
    ) {
        Ok(pair) => pair,
        Err(_) => {
            return Err(PlanError::RangeError);
        },
    };
    // Pad by the slippage tolerance, rounding up: these are maxima.
    let amount_0_with_slippage = amount_with_slippage(amount_0, slippage, true);
    let amount_1_with_slippage = amount_with_slippage(amount_1, slippage, true);
    // Pad further by the inverse transfer fee; the two paddings are
    // additive, computed independently.
    let (fee_info_0, fee_info_1) = match get_pool_mints_inverse_fee(
        mint_0_fee,
        mint_1_fee,
        epoch,
        amount_0_with_slippage,
        amount_1_with_slippage,
    ) {
        Ok(pair) => pair,
        Err(e) => {
            return Err(e);
        },
    };
    if amount_0_with_slippage > u64::MAX - fee_info_0.transfer_fee {
        return Err(PlanError::ArithmeticOverflow);
    }
    if amount_1_with_slippage > u64::MAX - fee_info_1.transfer_fee {
        return Err(PlanError::ArithmeticOverflow);
    }
    let amount_0_max = amount_0_with_slippage + fee_info_0.transfer_fee;
    let amount_1_max = amount_1_with_slippage + fee_info_1.transfer_fee;
    // Derive the tick-array and position addresses.
    let tick_array_lower_start_index = get_array_start_index(
        tick_lower_index,
        pool.tick_spacing,
    );
    let tick_array_upper_start_index = get_array_start_index(
        tick_upper_index,
        pool.tick_spacing,
    );
    let tick_array_lower = match tick_array_address(
        program,
        pool_id,
        tick_array_lower_start_index,
    ) {
        Ok(a) => a,
        Err(e) => {
            return Err(e);
        },
    };
    let tick_array_upper = match tick_array_address(
        program,
        pool_id,
        tick_array_upper_start_index,
    ) {
        Ok(a) => a,
        Err(e) => {
            return Err(e);
        },
    };
    let protocol_position = match protocol_position_address(
        program,
        pool_id,
        tick_lower_index,
        tick_upper_index,
    ) {
        Ok(a) => a,
        Err(e) => {
            return Err(e);
        },
    };
    // Match an existing position covering exactly this range.
    let matched_position = find_position(positions, pool_id, tick_lower_index, tick_upper_index);
    let personal_position = match &matched_position {
        Some(p) => {
            match personal_position_address(program, &p.nft_mint) {
                Ok(a) => Some(a),
                Err(e) => {
                    return Err(e);
                },
            }
        },
        None => None,
    };
    Ok(IncreasePlan {
        tick_lower_index,
        tick_upper_index,
        tick_array_lower_start_index,
        tick_array_upper_start_index,
        liquidity,
        amount_0,
        amount_1,
        amount_0_with_slippage,
        amount_1_with_slippage,
        transfer_fee_0: fee_info_0.transfer_fee,
        transfer_fee_1: fee_info_1.transfer_fee,
        amount_0_max,
        amount_1_max,
        tick_array_lower,
        tick_array_upper,
        protocol_position,
        personal_position,
        matched_position,
    })
}

} // verus!
