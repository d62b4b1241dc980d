//! End-to-end checks of the planning library against the real outside
//! crates: tick alignment, price conversion, fee inversion, address
//! derivation, position matching and the whole increase-liquidity plan.
use clmm_client::{
    tick_with_spacing, amount_with_slippage, SlippageRatio, PriceRatio, price_to_x64,
    sqrt_price_x64_from_ratio, multipler, price_to_sqrt_price_x64, get_sqrt_price_at_tick,
    get_tick_at_sqrt_price, tick_sqrt_price_round_trip, get_array_start_index, Address,
    TransferFee, TransferFeeConfigState, MintFeeState, get_transfer_inverse_fee,
    get_pool_mints_inverse_fee, MAX_FEE_BASIS_POINTS, Position, find_position, TokenInfo,
    select_nft_positions, PoolSnapshot, plan_increase_liquidity, plan_create_pool,
    derive_config_addresses, PlanError, MIN_TICK, MAX_TICK, MIN_SQRT_PRICE_X64,
    MAX_SQRT_PRICE_X64, u16_be_bytes, i32_be_bytes, amm_config_address, pool_address,
    vault_address, observation_address, bitmap_extension_address, tick_array_address,
    protocol_position_address, personal_position_address,
};
use solana_program::pubkey::Pubkey;

fn addr(byte: u8) -> Address {
    Address { bytes: [byte; 32] }
}

#[test]
fn align_is_multiple_and_below() {
    for &(tick, spacing) in &[(4054i32, 60i32), (4054, 1), (-1, 60), (7, 3), (-7, 3), (0, 10)] {
        let a = tick_with_spacing(tick, spacing);
        assert_eq!(a % spacing, 0);
        assert!(a <= tick);
        assert!(tick < a + spacing);
    }
}

#[test]
fn align_idempotent_on_samples() {
    for &(tick, spacing) in &[(4054i32, 60i32), (-1, 60), (-443636, 10), (99, 7)] {
        let once = tick_with_spacing(tick, spacing);
        assert_eq!(tick_with_spacing(once, spacing), once);
    }
}

#[test]
fn align_negative_rounds_toward_negative_infinity() {
    assert_eq!(tick_with_spacing(-1, 60), -60);
    assert_eq!(tick_with_spacing(-60, 60), -60);
    assert_eq!(tick_with_spacing(-61, 60), -120);
}

#[test]
fn zero_slippage_is_identity() {
    let zero = SlippageRatio { numerator: 0, denominator: 100 };
    assert_eq!(amount_with_slippage(100, &zero, true), 100);
    assert_eq!(amount_with_slippage(100, &zero, false), 100);
    assert_eq!(amount_with_slippage(u64::MAX, &zero, true), u64::MAX);
}

#[test]
fn one_percent_slippage_rounds_against_caller() {
    let one_percent = SlippageRatio { numerator: 1, denominator: 100 };
    assert_eq!(amount_with_slippage(100, &one_percent, true), 101);
    assert_eq!(amount_with_slippage(100, &one_percent, false), 99);
    // A tolerance of one or more drives the floor to zero.
    let all = SlippageRatio { numerator: 100, denominator: 100 };
    assert_eq!(amount_with_slippage(100, &all, false), 0);
}

#[test]
fn multipler_matches_powers_of_ten() {
    assert_eq!(multipler(0), Ok(1));
    assert_eq!(multipler(2), Ok(100));
    assert_eq!(multipler(19), Ok(10_000_000_000_000_000_000));
    assert_eq!(multipler(20), Err(PlanError::ArithmeticOverflow));
}

#[test]
fn price_to_x64_scales_exactly() {
    assert_eq!(price_to_x64(1, 1), 1u128 << 64);
    assert_eq!(price_to_x64(3, 2), 3u128 << 63);
}

#[test]
fn sqrt_price_of_unit_ratio_is_one_x64() {
    assert_eq!(sqrt_price_x64_from_ratio(1, 1), 1u128 << 64);
    assert_eq!(sqrt_price_x64_from_ratio(4, 1), 2u128 << 64);
}

#[test]
fn sqrt_price_close_to_float_computation() {
    let p = price_to_sqrt_price_x64(&PriceRatio { numerator: 3, denominator: 2 }, 0, 0).unwrap();
    let float = (1.5f64.sqrt() * (1u128 << 64) as f64) as u128;
    let diff = if p > float { p - float } else { float - p };
    assert!(diff < 1u128 << 16, "p={} float={}", p, float);
}

#[test]
fn sqrt_price_monotone_in_price() {
    let a = sqrt_price_x64_from_ratio(1, 2);
    let b = sqrt_price_x64_from_ratio(3, 2);
    let c = sqrt_price_x64_from_ratio(2, 1);
    assert!(a < b && b < c);
}

#[test]
fn zero_price_is_domain_error() {
    assert_eq!(
        price_to_sqrt_price_x64(&PriceRatio { numerator: 0, denominator: 1 }, 0, 0),
        Err(PlanError::DomainError)
    );
}

#[test]
fn tick_constants_match_math_library() {
    assert_eq!(MIN_TICK, raydium_amm_v3::libraries::tick_math::MIN_TICK);
    assert_eq!(MAX_TICK, raydium_amm_v3::libraries::tick_math::MAX_TICK);
    assert_eq!(MIN_SQRT_PRICE_X64, raydium_amm_v3::libraries::tick_math::MIN_SQRT_PRICE_X64);
    assert_eq!(MAX_SQRT_PRICE_X64, raydium_amm_v3::libraries::tick_math::MAX_SQRT_PRICE_X64);
}

#[test]
fn price_three_halves_maps_to_documented_tick() {
    let p = price_to_sqrt_price_x64(&PriceRatio { numerator: 3, denominator: 2 }, 0, 0).unwrap();
    let tick = get_tick_at_sqrt_price(p).unwrap();
    assert_eq!(tick, 4054);
    assert_eq!(tick_with_spacing(tick, 1), 4054);
    assert_eq!(tick_with_spacing(tick, 60), 4020);
}

#[test]
fn sqrt_price_at_zero_tick_is_unit() {
    assert_eq!(get_sqrt_price_at_tick(0).unwrap(), 1u128 << 64);
    assert!(get_sqrt_price_at_tick(MAX_TICK + 1).is_err());
    assert!(get_tick_at_sqrt_price(MAX_SQRT_PRICE_X64).is_err());
}

#[test]
fn tick_round_trip_recovers_tick() {
    for &t in &[0i32, 1, -1, 4054, -4054, 443_000, -443_636, 12345] {
        assert_eq!(tick_sqrt_price_round_trip(t), Ok(t));
    }
}

#[test]
fn array_start_index_matches_math_library() {
    for &(tick, spacing) in &[(4054i32, 1u16), (4054, 60), (-1, 60), (-3600, 60), (0, 10)] {
        assert_eq!(
            get_array_start_index(tick, spacing),
            raydium_amm_v3::states::TickArrayState::get_array_start_index(tick, spacing)
        );
    }
}

fn fee_config(bps: u16, maximum_fee: u64) -> TransferFeeConfigState {
    let schedule = TransferFee { epoch: 0, maximum_fee, transfer_fee_basis_points: bps };
    TransferFeeConfigState { older_transfer_fee: schedule, newer_transfer_fee: schedule }
}

#[test]
fn inverse_fee_round_trip_on_even_division() {
    // One percent of ten thousand divides evenly: the fee of 100 is
    // recovered from the post-fee amount of 9900.
    let cfg = Some(fee_config(100, u64::MAX));
    assert_eq!(get_transfer_inverse_fee(&cfg, 5, 9900), Ok(100));
}

#[test]
fn inverse_fee_matches_outside_library() {
    let ours = get_transfer_inverse_fee(&Some(fee_config(250, 1_000_000)), 3, 777_777).unwrap();
    let schedule = spl_token_2022::extension::transfer_fee::TransferFee {
        epoch: 0.into(),
        maximum_fee: 1_000_000.into(),
        transfer_fee_basis_points: 250.into(),
    };
    assert_eq!(Some(ours), schedule.calculate_inverse_fee(777_777));
    assert_eq!(
        MAX_FEE_BASIS_POINTS,
        spl_token_2022::extension::transfer_fee::MAX_FEE_BASIS_POINTS
    );
}

#[test]
fn sentinel_rate_pays_flat_maximum() {
    let cfg = Some(fee_config(MAX_FEE_BASIS_POINTS, 4242));
    assert_eq!(get_transfer_inverse_fee(&cfg, 0, 123_456), Ok(4242));
}

#[test]
fn fee_epoch_selection_prefers_newer_from_its_epoch() {
    let older = TransferFee { epoch: 0, maximum_fee: 10, transfer_fee_basis_points: 0 };
    let newer = TransferFee { epoch: 7, maximum_fee: u64::MAX, transfer_fee_basis_points: 100 };
    let cfg = Some(TransferFeeConfigState { older_transfer_fee: older, newer_transfer_fee: newer });
    assert_eq!(get_transfer_inverse_fee(&cfg, 6, 9900), Ok(0));
    assert_eq!(get_transfer_inverse_fee(&cfg, 7, 9900), Ok(100));
}

#[test]
fn inverse_fee_overflow_is_fee_calculation_error() {
    let cfg = Some(fee_config(1, u64::MAX));
    assert_eq!(
        get_transfer_inverse_fee(&cfg, 0, u64::MAX),
        Err(PlanError::FeeCalculationError)
    );
}

#[test]
fn pool_mints_inverse_fee_exempt_and_one_percent() {
    let exempt = MintFeeState { mint: addr(1), owner: addr(9), transfer_fee_config: None };
    let bearing = MintFeeState {
        mint: addr(2),
        owner: addr(9),
        transfer_fee_config: Some(fee_config(100, u64::MAX)),
    };
    let (info_0, info_1) =
        get_pool_mints_inverse_fee(&exempt, &bearing, 11, 9900, 9900).unwrap();
    assert_eq!(info_0.transfer_fee, 0);
    assert_eq!(info_0.mint, addr(1));
    assert_eq!(info_1.transfer_fee, 100);
    assert_eq!(info_1.mint, addr(2));
}

#[test]
fn empty_position_list_matches_nothing() {
    let none = find_position(&Vec::new(), &addr(5), -60, 60);
    assert!(none.is_none());
}

#[test]
fn first_matching_position_wins() {
    let pool = addr(5);
    let p1 = Position { nft_mint: addr(1), pool_id: pool, tick_lower_index: -60, tick_upper_index: 60 };
    let p2 = Position { nft_mint: addr(2), pool_id: pool, tick_lower_index: -60, tick_upper_index: 60 };
    let other = Position { nft_mint: addr(3), pool_id: pool, tick_lower_index: 0, tick_upper_index: 60 };
    let found = find_position(&vec![other, p1, p2], &pool, -60, 60).unwrap();
    assert_eq!(found.nft_mint, addr(1));
}

#[test]
fn be_byte_encodings_match_std() {
    assert_eq!(u16_be_bytes(0x1234), 0x1234u16.to_be_bytes().to_vec());
    assert_eq!(i32_be_bytes(4054), 4054i32.to_be_bytes().to_vec());
    assert_eq!(i32_be_bytes(-60), (-60i32).to_be_bytes().to_vec());
    assert_eq!(i32_be_bytes(i32::MIN), i32::MIN.to_be_bytes().to_vec());
}

fn expect_pda(seeds: &[&[u8]], program: &Address) -> Address {
    let (key, _bump) =
        Pubkey::find_program_address(seeds, &Pubkey::new_from_array(program.bytes));
    Address { bytes: key.to_bytes() }
}

#[test]
fn derived_addresses_match_ledger_rules() {
    let program = addr(7);
    let config = amm_config_address(&program, 1).unwrap();
    assert_eq!(config, expect_pda(&[b"amm_config", &1u16.to_be_bytes()], &program));

    let mint_0 = addr(10);
    let mint_1 = addr(11);
    let pool = pool_address(&program, &config, &mint_0, &mint_1).unwrap();
    assert_eq!(
        pool,
        expect_pda(
            &[b"pool", &config.bytes, &mint_0.bytes, &mint_1.bytes],
            &program
        )
    );

    let vault = vault_address(&program, &pool, &mint_0).unwrap();
    assert_eq!(vault, expect_pda(&[b"pool_vault", &pool.bytes, &mint_0.bytes], &program));

    let observation = observation_address(&program, &pool).unwrap();
    assert_eq!(observation, expect_pda(&[b"observation", &pool.bytes], &program));

    let bitmap = bitmap_extension_address(&program, &pool).unwrap();
    assert_eq!(
        bitmap,
        expect_pda(&[b"pool_tick_array_bitmap_extension", &pool.bytes], &program)
    );

    let array = tick_array_address(&program, &pool, -120).unwrap();
    assert_eq!(
        array,
        expect_pda(&[b"tick_array", &pool.bytes, &(-120i32).to_be_bytes()], &program)
    );

    let protocol = protocol_position_address(&program, &pool, -60, 60).unwrap();
    assert_eq!(
        protocol,
        expect_pda(
            &[b"position", &pool.bytes, &(-60i32).to_be_bytes(), &60i32.to_be_bytes()],
            &program
        )
    );

    let personal = personal_position_address(&program, &addr(42)).unwrap();
    assert_eq!(personal, expect_pda(&[b"position", &[42u8; 32]], &program));
}

#[test]
fn associated_token_address_matches_outside_library() {
    let wallet = addr(21);
    let mint = addr(22);
    let ours = clmm_client::associated_token_address(&wallet, &mint).unwrap();
    let expected = spl_associated_token_account::get_associated_token_address(
        &Pubkey::new_from_array(wallet.bytes),
        &Pubkey::new_from_array(mint.bytes),
    );
    assert_eq!(ours.bytes, expected.to_bytes());
    assert_eq!(clmm_client::token_program_id().bytes, spl_token::id().to_bytes());
    assert_eq!(
        clmm_client::ata_program_id().bytes,
        spl_associated_token_account::id().to_bytes()
    );
}

#[test]
fn seed_strings_match_math_library() {
    assert_eq!(b"amm_config", raydium_amm_v3::states::AMM_CONFIG_SEED.as_bytes());
    assert_eq!(b"pool", raydium_amm_v3::states::POOL_SEED.as_bytes());
    assert_eq!(b"pool_vault", raydium_amm_v3::states::POOL_VAULT_SEED.as_bytes());
    assert_eq!(b"observation", raydium_amm_v3::states::OBSERVATION_SEED.as_bytes());
    assert_eq!(b"tick_array", raydium_amm_v3::states::TICK_ARRAY_SEED.as_bytes());
    assert_eq!(b"position", raydium_amm_v3::states::POSITION_SEED.as_bytes());
    assert_eq!(
        b"pool_tick_array_bitmap_extension",
        raydium_amm_v3::states::POOL_TICK_ARRAY_BITMAP_SEED.as_bytes()
    );
}

#[test]
fn select_nft_positions_keeps_unit_zero_decimal_tokens() {
    let program = addr(7);
    let nft = TokenInfo { key: addr(1), mint: addr(2), amount: 1, decimals: 0 };
    let coin = TokenInfo { key: addr(3), mint: addr(4), amount: 500, decimals: 6 };
    let (nfts, pdas) = select_nft_positions(&vec![coin, nft], &program).unwrap();
    assert_eq!(nfts.len(), 1);
    assert_eq!(pdas.len(), 1);
    assert_eq!(nfts[0].mint, addr(2));
    assert_eq!(pdas[0], expect_pda(&[b"position", &[2u8; 32]], &program));
}

#[test]
fn config_addresses_sort_mints() {
    let program = addr(7);
    let big = addr(200);
    let small = addr(100);
    let c = derive_config_addresses(&program, 0, Some(big), Some(small)).unwrap();
    assert_eq!(c.mint0.unwrap(), small);
    assert_eq!(c.mint1.unwrap(), big);
    assert!(c.pool_id_account.is_some());
    assert!(c.tickarray_bitmap_extension.is_some());
    let partial = derive_config_addresses(&program, 0, Some(big), None).unwrap();
    assert!(partial.pool_id_account.is_none());
}

#[test]
fn create_pool_plan_swaps_and_inverts_price() {
    let program = addr(7);
    let plan = plan_create_pool(
        &program,
        1,
        &addr(200),
        6,
        &addr(100),
        9,
        &PriceRatio { numerator: 2, denominator: 1 },
    )
    .unwrap();
    assert_eq!(plan.mint_0, addr(100));
    assert_eq!(plan.mint_1, addr(200));
    assert_eq!(plan.price, PriceRatio { numerator: 1, denominator: 2 });
    // The oriented price is 0.5 with decimals (9, 6): scaled ratio
    // 1e6 / (2e9), sqrt in 64.64 form.
    let expected = sqrt_price_x64_from_ratio(1_000_000, 2_000_000_000);
    assert_eq!(plan.sqrt_price_x64, expected);
    assert_eq!(
        plan.tick,
        raydium_amm_v3::libraries::tick_math::get_tick_at_sqrt_price(expected).unwrap()
    );
}

fn snapshot() -> PoolSnapshot {
    PoolSnapshot {
        tick_spacing: 10,
        tick_current: 0,
        sqrt_price_x64: 1u128 << 64,
        mint_decimals_0: 0,
        mint_decimals_1: 0,
        token_mint_0: addr(10),
        token_mint_1: addr(11),
        token_vault_0: addr(12),
        token_vault_1: addr(13),
    }
}

#[test]
fn increase_plan_end_to_end() {
    let program = addr(7);
    let pool_id = addr(8);
    let no_fee = MintFeeState { mint: addr(10), owner: addr(9), transfer_fee_config: None };
    let fee_mint = MintFeeState {
        mint: addr(11),
        owner: addr(9),
        transfer_fee_config: Some(fee_config(100, u64::MAX)),
    };
    let positions = vec![];
    let plan = plan_increase_liquidity(
        &snapshot(),
        &program,
        &pool_id,
        &positions,
        &PriceRatio { numerator: 1, denominator: 2 },
        &PriceRatio { numerator: 2, denominator: 1 },
        true,
        1_000_000,
        &SlippageRatio { numerator: 1, denominator: 100 },
        &no_fee,
        &fee_mint,
        7,
    )
    .unwrap();
    // ln(0.5)/ln(1.0001) is about -6931.8, aligned down at spacing 10.
    assert_eq!(plan.tick_lower_index, -6940);
    assert_eq!(plan.tick_upper_index, 6930);
    let sqrt_a =
        raydium_amm_v3::libraries::tick_math::get_sqrt_price_at_tick(-6940).unwrap();
    let sqrt_b =
        raydium_amm_v3::libraries::tick_math::get_sqrt_price_at_tick(6930).unwrap();
    let expected_liquidity =
        raydium_amm_v3::libraries::liquidity_math::get_liquidity_from_single_amount_0(
            1u128 << 64,
            sqrt_a,
            sqrt_b,
            1_000_000,
        );
    assert_eq!(plan.liquidity, expected_liquidity);
    let (expected_0, expected_1) =
        raydium_amm_v3::libraries::liquidity_math::get_delta_amounts_signed(
            0,
            1u128 << 64,
            -6940,
            6930,
            expected_liquidity as i128,
        )
        .unwrap();
    assert_eq!(plan.amount_0, expected_0);
    assert_eq!(plan.amount_1, expected_1);
    assert!(plan.amount_0 > 0 && plan.amount_1 > 0);
    // Slippage and fee padding are additive.
    assert_eq!(plan.amount_0_max, plan.amount_0_with_slippage);
    assert_eq!(
        plan.amount_1_max,
        plan.amount_1_with_slippage + plan.transfer_fee_1
    );
    assert!(plan.transfer_fee_1 > 0);
    // Tick arrays sit on whole-array boundaries.
    assert_eq!(plan.tick_array_lower_start_index, -7200);
    assert_eq!(plan.tick_array_upper_start_index, 6600);
    assert_eq!(
        plan.tick_array_lower,
        expect_pda(
            &[b"tick_array", &pool_id.bytes, &(-7200i32).to_be_bytes()],
            &program
        )
    );
    assert!(plan.matched_position.is_none());
    assert!(plan.personal_position.is_none());
}

#[test]
fn increase_plan_finds_existing_position() {
    let program = addr(7);
    let pool_id = addr(8);
    let no_fee = MintFeeState { mint: addr(10), owner: addr(9), transfer_fee_config: None };
    let held = Position {
        nft_mint: addr(42),
        pool_id,
        tick_lower_index: -6940,
        tick_upper_index: 6930,
    };
    let plan = plan_increase_liquidity(
        &snapshot(),
        &program,
        &pool_id,
        &vec![held],
        &PriceRatio { numerator: 1, denominator: 2 },
        &PriceRatio { numerator: 2, denominator: 1 },
        false,
        1_000_000,
        &SlippageRatio { numerator: 0, denominator: 1 },
        &no_fee,
        &no_fee,
        7,
    )
    .unwrap();
    let matched = plan.matched_position.unwrap();
    assert_eq!(matched.nft_mint, addr(42));
    assert_eq!(
        plan.personal_position.unwrap(),
        expect_pda(&[b"position", &[42u8; 32]], &program)
    );
    // Base-1 deposit: liquidity follows the token-1 formula.
    let sqrt_a =
        raydium_amm_v3::libraries::tick_math::get_sqrt_price_at_tick(-6940).unwrap();
    let sqrt_b =
        raydium_amm_v3::libraries::tick_math::get_sqrt_price_at_tick(6930).unwrap();
    let expected_liquidity =
        raydium_amm_v3::libraries::liquidity_math::get_liquidity_from_single_amount_1(
            1u128 << 64,
            sqrt_a,
            sqrt_b,
            1_000_000,
        );
    assert_eq!(plan.liquidity, expected_liquidity);
}

#[test]
fn increase_plan_rejects_empty_range() {
    let program = addr(7);
    let no_fee = MintFeeState { mint: addr(10), owner: addr(9), transfer_fee_config: None };
    let r = plan_increase_liquidity(
        &snapshot(),
        &program,
        &addr(8),
        &vec![],
        &PriceRatio { numerator: 1, denominator: 1 },
        &PriceRatio { numerator: 1, denominator: 1 },
        true,
        1_000_000,
        &SlippageRatio { numerator: 0, denominator: 1 },
        &no_fee,
        &no_fee,
        7,
    );
    assert_eq!(r.err(), Some(PlanError::RangeError));
}
