//! The AMM math library's tick and liquidity routines, consumed as
//! black-box pure functions with documented contracts: sqrt-price and
//! tick conversions, liquidity from a single-sided deposit, and the
//! signed token deltas of a liquidity change.
use vstd::prelude::*;
use crate::slippage::spec_ceil_div;
use crate::wide::TWO64;
use crate::PlanError;

verus! {

/// The smallest tick the math library supports.
pub const MIN_TICK: i32 = -443636;
/// The largest tick the math library supports.
pub const MAX_TICK: i32 = 443636;
/// The sqrt price at the smallest tick, the least value the library
/// returns.
pub const MIN_SQRT_PRICE_X64: u128 = 4295048016;
/// The sqrt price at the largest tick, the greatest value the library
/// returns.
pub const MAX_SQRT_PRICE_X64: u128 = 79226673521066979257578248091;

/// The outside math library's error type, carried through unchanged
/// until verified code maps it to the planner's own error kind.
#[verifier::external_type_specification]
#[verifier::external_body]
pub struct ExAnchorError(anchor_lang::error::Error);

/// What the math library returns for a tick: the square root of
/// 1.0001 to that tick's power, in 64.64 fixed point. A pure function
/// of the tick alone.
pub uninterp spec fn sqrt_price_of_tick(tick: int) -> u128;

/// What the math library returns for a sqrt price: the greatest tick
/// whose own sqrt price does not exceed it. A pure function of the
/// price alone.
pub uninterp spec fn tick_of_sqrt_price(sqrt_price_x64: u128) -> i32;

/// Relies on raydium_amm_v3's tick_math::get_sqrt_price_at_tick: it
/// computes sqrt(1.0001^tick) in 64.64 fixed point, errs exactly on
/// ticks outside the supported domain, stays within the documented
/// price bounds, and is strictly increasing in the tick. The library
/// takes the tick's absolute value first, which the smallest machine
/// word has none of; that one input stays out.
#[verifier::external_body]
pub fn get_sqrt_price_at_tick(tick: i32) -> (r: Result<u128, anchor_lang::error::Error>)
    requires
        tick != i32::MIN,
    ensures
        r is Ok <==> MIN_TICK <= tick <= MAX_TICK,
        r matches Ok(p) ==> {
            &&& p == sqrt_price_of_tick(tick as int)
            &&& MIN_SQRT_PRICE_X64 <= p <= MAX_SQRT_PRICE_X64
            &&& (tick < MAX_TICK ==> p < MAX_SQRT_PRICE_X64)
            &&& (tick > MIN_TICK ==> p > MIN_SQRT_PRICE_X64)
            &&& forall|t2: i32| MIN_TICK <= t2 < tick ==> sqrt_price_of_tick(t2 as int) < p
            &&& forall|t2: i32| tick < t2 <= MAX_TICK ==> p < sqrt_price_of_tick(t2 as int)
        },
{
    raydium_amm_v3::libraries::tick_math::get_sqrt_price_at_tick(tick)
}

/// Relies on raydium_amm_v3's tick_math::get_tick_at_sqrt_price: it
/// returns the greatest tick whose sqrt price is at most the given
/// one, and errs exactly on prices outside the supported half-open
/// domain.
#[verifier::external_body]
pub fn get_tick_at_sqrt_price(sqrt_price_x64: u128) -> (r: Result<
    i32,
    anchor_lang::error::Error,
>)
    ensures
        r is Ok <==> MIN_SQRT_PRICE_X64 <= sqrt_price_x64 < MAX_SQRT_PRICE_X64,
        r matches Ok(t) ==> {
            &&& t == tick_of_sqrt_price(sqrt_price_x64)
            &&& MIN_TICK <= t < MAX_TICK
            &&& sqrt_price_of_tick(t as int) <= sqrt_price_x64
            &&& forall|t2: i32| t < t2 <= MAX_TICK ==> sqrt_price_x64 < sqrt_price_of_tick(
                t2 as int,
            )
        },
{
    raydium_amm_v3::libraries::tick_math::get_tick_at_sqrt_price(sqrt_price_x64)
}

/// Converting a tick to its sqrt price and back recovers the tick, for
/// every tick of the supported domain but the largest (whose price the
/// reverse conversion refuses as out of range).
pub fn tick_sqrt_price_round_trip(tick: i32) -> (r: Result<i32, PlanError>)
    ensures
        MIN_TICK <= tick < MAX_TICK ==> r == Ok::<i32, PlanError>(tick),
{
    if tick < MIN_TICK || tick > MAX_TICK {
        return Err(PlanError::RangeError);
    }
    let price = match get_sqrt_price_at_tick(tick) {
        Ok(p) => p,
        Err(_) => {
            return Err(PlanError::RangeError);
        },
    };
    match get_tick_at_sqrt_price(price) {
        Ok(t) => {
            proof {
                if tick < MAX_TICK {
                    // t cannot lie below the tick: the price would then be
                    // strictly beyond t + 1's price, contradicting the
                    // greatest-tick characterization; nor above it, since
                    // its own price would exceed the given one.
                    if t < tick {
                        assert(price < sqrt_price_of_tick((t + 1) as int));
                        if t + 1 < tick {
                            assert(sqrt_price_of_tick((t + 1) as int) < price);
                        }
                        assert(false);
                    }
                    if t > tick {
                        assert(price < sqrt_price_of_tick(t as int));
                        assert(sqrt_price_of_tick(t as int) <= price);
                        assert(false);
                    }
                }
            }
            Ok(t)
        },
        Err(_) => Err(PlanError::RangeError),
    }
}

/// One step of the liquidity-from-token-0 formula over a sorted price
/// pair: `amount * floor(low * high / 2^64) / (high - low)`.
pub open spec fn spec_liquidity_step_0(low: int, high: int, amount: int) -> int {
    (amount * ((low * high) / TWO64 as int)) / (high - low)
}

/// The liquidity a single-sided token-0 deposit supports over a sorted
/// price range, by the position of the current price relative to it.
pub open spec fn spec_liquidity_from_single_amount_0(
    current: int,
    low: int,
    high: int,
    amount: int,
) -> int {
    if current <= low {
        spec_liquidity_step_0(low, high, amount)
    } else if current < high {
        spec_liquidity_step_0(current, high, amount)
    } else {
        0
    }
}

/// One step of the liquidity-from-token-1 formula over a sorted price
/// pair: `amount * 2^64 / (high - low)`.
pub open spec fn spec_liquidity_step_1(low: int, high: int, amount: int) -> int {
    (amount * TWO64 as int) / (high - low)
}

/// The liquidity a single-sided token-1 deposit supports over a sorted
/// price range, by the position of the current price relative to it.
pub open spec fn spec_liquidity_from_single_amount_1(
    current: int,
    low: int,
    high: int,
    amount: int,
) -> int {
    if current <= low {
        0
    } else if current < high {
        spec_liquidity_step_1(low, current, amount)
    } else {
        spec_liquidity_step_1(low, high, amount)
    }
}

/// Relies on raydium_amm_v3's
/// liquidity_math::get_liquidity_from_single_amount_0, whose formula
/// the doc comments give as ΔL = Δx (√P_upper √P_lower)/(√P_upper −
/// √P_lower), rounded down at each division. The requires exclude the
/// inputs on which its internal 128-bit multiply-divide overflows and
/// panics.
#[verifier::external_body]
pub fn get_liquidity_from_single_amount_0(
    sqrt_price_x64: u128,
    sqrt_price_a_x64: u128,
    sqrt_price_b_x64: u128,
    amount_0: u64,
) -> (r: u128)
    requires
        1 <= sqrt_price_a_x64 < sqrt_price_b_x64,
        sqrt_price_b_x64 < TWO64 * 0x1_0000_0000,
        sqrt_price_x64 <= sqrt_price_a_x64 ==> spec_liquidity_step_0(
            sqrt_price_a_x64 as int,
            sqrt_price_b_x64 as int,
            amount_0 as int,
        ) <= u128::MAX,
        sqrt_price_a_x64 < sqrt_price_x64 < sqrt_price_b_x64 ==> spec_liquidity_step_0(
            sqrt_price_x64 as int,
            sqrt_price_b_x64 as int,
            amount_0 as int,
        ) <= u128::MAX,
    ensures
        r == spec_liquidity_from_single_amount_0(
            sqrt_price_x64 as int,
            sqrt_price_a_x64 as int,
            sqrt_price_b_x64 as int,
            amount_0 as int,
        ),
{
    raydium_amm_v3::libraries::liquidity_math::get_liquidity_from_single_amount_0(
        sqrt_price_x64,
        sqrt_price_a_x64,
        sqrt_price_b_x64,
        amount_0,
    )
}

/// Relies on raydium_amm_v3's
/// liquidity_math::get_liquidity_from_single_amount_1, whose formula
/// the doc comments give as ΔL = Δy / (√P_upper − √P_lower), rounded
/// down; its intermediate values all fit their words for sorted prices
/// below two to the ninety-sixth.
#[verifier::external_body]
pub fn get_liquidity_from_single_amount_1(
    sqrt_price_x64: u128,
    sqrt_price_a_x64: u128,
    sqrt_price_b_x64: u128,
    amount_1: u64,
) -> (r: u128)
    requires
        1 <= sqrt_price_a_x64 < sqrt_price_b_x64,
        sqrt_price_b_x64 < TWO64 * 0x1_0000_0000,
    ensures
        r == spec_liquidity_from_single_amount_1(
            sqrt_price_x64 as int,
            sqrt_price_a_x64 as int,
            sqrt_price_b_x64 as int,
            amount_1 as int,
        ),
{
    raydium_amm_v3::libraries::liquidity_math::get_liquidity_from_single_amount_1(
        sqrt_price_x64,
        sqrt_price_a_x64,
        sqrt_price_b_x64,
        amount_1,
    )
}

/// The token-0 delta of adding `liquidity` over a sorted price pair,
/// rounded up at both divisions:
/// `ceil(ceil(liquidity * 2^64 * (high - low) / high) / low)`.
pub open spec fn spec_delta_0_up(low: int, high: int, liquidity: int) -> int {
    spec_ceil_div(spec_ceil_div(liquidity * TWO64 as int * (high - low), high), low)
}

/// The token-1 delta of adding `liquidity` over a sorted price pair,
/// rounded up: `ceil(liquidity * (high - low) / 2^64)`.
pub open spec fn spec_delta_1_up(low: int, high: int, liquidity: int) -> int {
    spec_ceil_div(liquidity * (high - low), TWO64 as int)
}

/// Relies on raydium_amm_v3's
/// liquidity_math::get_delta_amounts_signed: for a non-negative
/// liquidity change it charges token 0 over the part of the range above
/// the current price and token 1 over the part below, each rounded up,
/// with the formulas its doc comments give. The requires exclude the
/// inputs on which an intermediate product or the 64-bit results
/// overflow and the library panics.
#[verifier::external_body]
pub fn get_delta_amounts_signed(
    tick_current: i32,
    sqrt_price_x64_current: u128,
    tick_lower: i32,
    tick_upper: i32,
    liquidity_delta: i128,
) -> (r: Result<(u64, u64), anchor_lang::error::Error>)
    requires
        MIN_TICK <= tick_lower <= MAX_TICK,
        MIN_TICK <= tick_upper <= MAX_TICK,
        liquidity_delta >= 0,
        1 <= sqrt_price_of_tick(tick_lower as int),
        1 <= sqrt_price_x64_current,
        tick_current < tick_lower ==> {
            &&& liquidity_delta * (sqrt_price_of_tick(tick_upper as int) - sqrt_price_of_tick(
                tick_lower as int,
            )) < pow2_192()
            &&& spec_ceil_div(
                liquidity_delta * TWO64 as int * (sqrt_price_of_tick(tick_upper as int)
                    - sqrt_price_of_tick(tick_lower as int)),
                sqrt_price_of_tick(tick_upper as int) as int,
            ) <= u128::MAX
            &&& spec_delta_0_up(
                sqrt_price_of_tick(tick_lower as int) as int,
                sqrt_price_of_tick(tick_upper as int) as int,
                liquidity_delta as int,
            ) <= u64::MAX
        },
        tick_lower <= tick_current < tick_upper ==> {
            &&& liquidity_delta * (sqrt_price_of_tick(tick_upper as int)
                - sqrt_price_x64_current) < pow2_192()
            &&& spec_ceil_div(
                liquidity_delta * TWO64 as int * (sqrt_price_of_tick(tick_upper as int)
                    - sqrt_price_x64_current),
                sqrt_price_of_tick(tick_upper as int) as int,
            ) <= u128::MAX
            &&& spec_delta_0_up(
                sqrt_price_x64_current as int,
                sqrt_price_of_tick(tick_upper as int) as int,
                liquidity_delta as int,
            ) <= u64::MAX
            &&& spec_delta_1_up(
                sqrt_price_of_tick(tick_lower as int) as int,
                sqrt_price_x64_current as int,
                liquidity_delta as int,
            ) <= u64::MAX
            &&& sqrt_price_of_tick(tick_lower as int) <= sqrt_price_x64_current
            &&& sqrt_price_x64_current <= sqrt_price_of_tick(tick_upper as int)
        },
        tick_upper <= tick_current ==> spec_delta_1_up(
            sqrt_price_of_tick(tick_lower as int) as int,
            sqrt_price_of_tick(tick_upper as int) as int,
            liquidity_delta as int,
        ) <= u64::MAX,
        tick_lower < tick_upper,
    ensures
        r is Ok,
        r matches Ok(pair) ==> {
            &&& (tick_current < tick_lower ==> pair.0 == spec_delta_0_up(
                sqrt_price_of_tick(tick_lower as int) as int,
                sqrt_price_of_tick(tick_upper as int) as int,
                liquidity_delta as int,
            ) && pair.1 == 0)
            &&& (tick_lower <= tick_current < tick_upper ==> pair.0 == spec_delta_0_up(
                sqrt_price_x64_current as int,
                sqrt_price_of_tick(tick_upper as int) as int,
                liquidity_delta as int,
            ) && pair.1 == spec_delta_1_up(
                sqrt_price_of_tick(tick_lower as int) as int,
                sqrt_price_x64_current as int,
                liquidity_delta as int,
            ))
            &&& (tick_upper <= tick_current ==> pair.0 == 0 && pair.1 == spec_delta_1_up(
                sqrt_price_of_tick(tick_lower as int) as int,
                sqrt_price_of_tick(tick_upper as int) as int,
                liquidity_delta as int,
            ))
        },
{
    raydium_amm_v3::libraries::liquidity_math::get_delta_amounts_signed(
        tick_current,
        sqrt_price_x64_current,
        tick_lower,
        tick_upper,
        liquidity_delta,
    )
}

/// Two to the one-hundred-ninety-second power, the bound under which
/// the delta formulas' intermediate products stay representable.
pub open spec fn pow2_192() -> int {
    0x1_0000_0000_0000_0000_0000_0000_0000_0000_0000_0000_0000_0000int
}

/// Ticks per tick array times the spacing: the span of one array.
pub const TICK_ARRAY_SIZE: i32 = 60;

/// The start index of the tick array holding `tick`: the tick aligned
/// down to a whole array span. Mirrors the math library's
/// TickArrayState::get_array_start_index, whose whole behaviour this
/// one statement covers.
pub fn get_array_start_index(tick: i32, tick_spacing: u16) -> (r: i32)
    requires
        tick_spacing >= 1,
        tick_spacing as int * TICK_ARRAY_SIZE as int <= i32::MAX,
        tick - (tick_spacing as int * TICK_ARRAY_SIZE as int - 1) >= i32::MIN,
    ensures
        r == crate::tick::spec_align(tick as int, tick_spacing as int * TICK_ARRAY_SIZE as int),
{
    let ticks_in_array: i32 = (tick_spacing as i32) * TICK_ARRAY_SIZE;
    crate::tick::tick_with_spacing(tick, ticks_in_array)
}

} // verus!
