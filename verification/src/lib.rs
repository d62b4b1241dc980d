//! Planning library for a single "add liquidity" operation against a
//! concentrated-liquidity automated market maker: price conversion into the
//! protocol's fixed-point form, tick alignment, slippage and transfer-fee
//! adjustment, deterministic address derivation, and position matching.
use vstd::prelude::*;

mod tick;
mod wide;
mod price;
mod address;
mod fee;
mod amm;
mod position;
mod plan;
mod config;
mod slippage;

pub use tick::{tick_with_spacing, spec_align, lemma_align_bounds, lemma_align_idempotent};
pub use address::{Address, derive_address, pda_of, seeds_view, spec_bytes_lt, lemma_bytes_lt_asym, spec_amm_config_seed, spec_pool_seed, spec_pool_vault_seed, spec_observation_seed, spec_tick_array_seed, spec_position_seed, spec_bitmap_extension_seed, spec_u16_be, spec_i32_be, spec_token_program_id, spec_ata_program_id, token_program_id, ata_program_id, associated_token_address, amm_config_address, pool_address, vault_address, observation_address, bitmap_extension_address, tick_array_address, protocol_position_address, personal_position_address, u16_be_bytes, i32_be_bytes};
pub use amm::{spec_liquidity_from_single_amount_0, spec_liquidity_from_single_amount_1, spec_liquidity_step_0, spec_liquidity_step_1, pow2_192, spec_delta_0_up, spec_delta_1_up, MIN_TICK, MAX_TICK, MIN_SQRT_PRICE_X64, MAX_SQRT_PRICE_X64, TICK_ARRAY_SIZE, sqrt_price_of_tick, tick_of_sqrt_price, get_sqrt_price_at_tick, get_tick_at_sqrt_price, tick_sqrt_price_round_trip, get_array_start_index};
pub use config::{ClientConfig, ConfigAddresses, CreatePoolPlan, derive_config_addresses, plan_create_pool, spec_sorted_mints, spec_sqrt_in_tick_domain, spec_create_pool_feasible};
pub use plan::{PoolSnapshot, IncreasePlan, plan_increase_liquidity, spec_is_aligned_tick_of_price, spec_increase_chain, spec_increase_feasible, spec_liquidity_guard_0, spec_delta_0_guard, spec_delta_1_guard};
pub use position::{Position, spec_position_matches, find_position, TokenInfo, spec_is_position_nft, select_nft_positions};
pub use fee::{TransferFee, TransferFeeConfigState, MintFeeState, TransferFeeInfo, spec_fee, spec_pre_fee_amount, spec_inverse_fee, spec_transfer_inverse_fee, get_transfer_inverse_fee, get_pool_mints_inverse_fee, MAX_FEE_BASIS_POINTS, lemma_fee_inversion_round_trip};
pub use price::{PriceRatio, price_to_x64, sqrt_price_x64_from_ratio, multipler, price_to_sqrt_price_x64, spec_is_sqrt_price_x64, spec_ratio_x128, spec_pow10, lemma_sqrt_price_unique, lemma_sqrt_price_monotone};
pub use slippage::{SlippageRatio, amount_with_slippage, spec_ceil_div, spec_slippage_part, spec_amount_with_slippage, lemma_zero_slippage_is_identity, lemma_slippage_down_is_floor};

verus! {

/// The error kinds a planning call can surface. Every failure is terminal
/// for the current plan; nothing is retried internally.
#[derive(Clone, Copy, Debug, PartialEq, Eq, Structural)]
pub enum PlanError {
    /// A non-positive price was handed to the square-root conversion.
    DomainError,
    /// A tick or price fell outside the math library's supported domain.
    RangeError,
    /// A fixed-point or fee computation would not fit its machine word.
    ArithmeticOverflow,
    /// A required ledger account is absent, unparsable, or no valid
    /// derived address exists for the requested seeds.
    MissingAccountData,
    /// The fee ceiling was exceeded or the inverse fee is undefined.
    FeeCalculationError,
}

} // verus!
