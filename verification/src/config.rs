//! Immutable client configuration and the create-pool plan: ordering
//! the mint pair, converting the initial price, and deriving every
//! account address the pool-creation instruction needs.
use vstd::prelude::*;
use crate::address::{
    Address,
    pda_of,
    spec_amm_config_seed,
    spec_pool_seed,
    spec_pool_vault_seed,
    spec_observation_seed,
    spec_bitmap_extension_seed,
    spec_u16_be,
    spec_bytes_lt,
    lemma_bytes_lt_asym,
    amm_config_address,
    pool_address,
    vault_address,
    observation_address,
    bitmap_extension_address,
};
use crate::amm::{MIN_SQRT_PRICE_X64, MAX_SQRT_PRICE_X64, tick_of_sqrt_price, get_tick_at_sqrt_price};
use crate::price::{PriceRatio, price_to_sqrt_price_x64, spec_is_sqrt_price_x64, spec_pow10};
use crate::slippage::SlippageRatio;
use crate::PlanError;

verus! {

/// The immutable configuration a planning call receives: endpoints and
/// key paths as opaque strings, the program and configuration
/// addresses, and the slippage tolerance. Passed explicitly, never
/// ambient.
#[derive(Clone, Debug)]
pub struct ClientConfig {
    pub http_url: String,
    pub ws_url: String,
    pub payer_path: String,
    pub admin_path: String,
    pub raydium_v3_program: Address,
    pub slippage: SlippageRatio,
    pub amm_config_key: Address,
    pub mint0: Option<Address>,
    pub mint1: Option<Address>,
    pub pool_id_account: Option<Address>,
    pub tickarray_bitmap_extension: Option<Address>,
    pub amm_config_index: u16,
}

/// The mint pair in canonical order: the lexicographically smaller
/// address first.
pub open spec fn spec_sorted_mints(a: Seq<u8>, b: Seq<u8>) -> (Seq<u8>, Seq<u8>) {
    if spec_bytes_lt(b, a, 0) {
        (b, a)
    } else {
        (a, b)
    }
}

/// The pool-level addresses derived while loading a configuration: the
/// fee-configuration account, the mint pair in canonical order, and,
/// once both mints are known, the pool and its bitmap extension.
pub struct ConfigAddresses {
    pub amm_config_key: Address,
    pub mint0: Option<Address>,
    pub mint1: Option<Address>,
    pub pool_id_account: Option<Address>,
    pub tickarray_bitmap_extension: Option<Address>,
}

/// Derive the addresses a configuration determines. The mint pair is
/// sorted into canonical (lexicographically ascending) order first;
/// the pool and bitmap addresses exist only when both mints are given.
pub fn derive_config_addresses(
    program: &Address,
    amm_config_index: u16,
    mint0: Option<Address>,
    mint1: Option<Address>,
) -> (r: Result<ConfigAddresses, PlanError>)
    ensures
        r matches Ok(c) ==> {
            &&& pda_of(
                seq![spec_amm_config_seed(), spec_u16_be(amm_config_index as int)],
                program@,
            ) == Some(c.amm_config_key@)
            &&& (mint0 is Some && mint1 is Some ==> {
                &&& c.mint0 is Some
                &&& c.mint1 is Some
                &&& !spec_bytes_lt(c.mint1->0@, c.mint0->0@, 0)
                &&& (c.mint0 == mint0 && c.mint1 == mint1) || (c.mint0 == mint1 && c.mint1
                    == mint0)
                &&& c.pool_id_account matches Some(pool) && pda_of(
                    seq![spec_pool_seed(), c.amm_config_key@, c.mint0->0@, c.mint1->0@],
                    program@,
                ) == Some(pool@)
                &&& c.tickarray_bitmap_extension matches Some(ext) && pda_of(
                    seq![spec_bitmap_extension_seed(), c.pool_id_account->0@],
                    program@,
                ) == Some(ext@)
            })
            &&& (!(mint0 is Some && mint1 is Some) ==> c.pool_id_account is None
                && c.tickarray_bitmap_extension is None)
        },
        r is Err ==> r == Err::<ConfigAddresses, PlanError>(PlanError::MissingAccountData),
        r is Err <==> ({
            let acfg = pda_of(
                seq![spec_amm_config_seed(), spec_u16_be(amm_config_index as int)],
                program@,
            );
            ||| acfg is None
            ||| (mint0 matches Some(m0) && mint1 matches Some(m1) && acfg matches Some(cfg)
                && ({
                let pair = spec_sorted_mints(m0@, m1@);
                let pool = pda_of(seq![spec_pool_seed(), cfg, pair.0, pair.1], program@);
                ||| pool is None
                ||| (pool matches Some(pl) && pda_of(
                    seq![spec_bitmap_extension_seed(), pl],
                    program@,
                ) is None)
            }))
        }),
{
    let amm_config_key = match amm_config_address(program, amm_config_index) {
        Ok(a) => a,
        Err(e) => {
            return Err(e);
        },
    };
    match (mint0, mint1) {
        (Some(m0), Some(m1)) => {
            let swapped: bool = m1.less_than(&m0);
            proof {
                if spec_bytes_lt(m1@, m0@, 0) {
                    lemma_bytes_lt_asym(m1@, m0@, 0);
                }
            }
            let (low, high) = if swapped {
                (m1, m0)
            } else {
                (m0, m1)
            };
            let pool = match pool_address(program, &amm_config_key, &low, &high) {
                Ok(a) => a,
                Err(e) => {
                    return Err(e);
                },
            };
            let ext = match bitmap_extension_address(program, &pool) {
                Ok(a) => a,
                Err(e) => {
                    return Err(e);
                },
            };
            Ok(ConfigAddresses {
                amm_config_key,
                mint0: Some(low),
                mint1: Some(high),
                pool_id_account: Some(pool),
                tickarray_bitmap_extension: Some(ext),
            })
        },
        _ => Ok(ConfigAddresses {
            amm_config_key,
            mint0,
            mint1,
            pool_id_account: None,
            tickarray_bitmap_extension: None,
        }),
    }
}

/// Every square-root price of the given scaled ratio lies in the tick
/// domain, so the reverse tick conversion accepts it.
pub open spec fn spec_sqrt_in_tick_domain(num: int, den: int) -> bool {
    forall|p: int| #[trigger]
        spec_is_sqrt_price_x64(num, den, p) ==> MIN_SQRT_PRICE_X64 <= p < MAX_SQRT_PRICE_X64
}

/// Every condition under which a create-pool plan is owed: the mints
/// order (or swap) cleanly with an invertible price, the oriented
/// price converts within the machine words, its sqrt price lands in
/// the tick domain, and every address lookup succeeds.
pub open spec fn spec_create_pool_feasible(
    program: Seq<u8>,
    config_index: u16,
    mint_0: Seq<u8>,
    decimals_0: u8,
    mint_1: Seq<u8>,
    decimals_1: u8,
    price: PriceRatio,
) -> bool {
    let swapped = spec_bytes_lt(mint_1, mint_0, 0);
    let onum = if swapped {
        price.denominator
    } else {
        price.numerator
    };
    let oden = if swapped {
        price.numerator
    } else {
        price.denominator
    };
    let d0 = if swapped {
        decimals_1
    } else {
        decimals_0
    };
    let d1 = if swapped {
        decimals_0
    } else {
        decimals_1
    };
    let pair = spec_sorted_mints(mint_0, mint_1);
    &&& onum >= 1
    &&& oden >= 1
    &&& d0 <= 19
    &&& d1 <= 19
    &&& onum * spec_pow10(d1 as nat) <= u64::MAX
    &&& oden * spec_pow10(d0 as nat) <= u64::MAX
    &&& spec_sqrt_in_tick_domain(onum * spec_pow10(d1 as nat), oden * spec_pow10(d0 as nat))
    &&& ({
        let acfg = pda_of(seq![spec_amm_config_seed(), spec_u16_be(config_index as int)], program);
        &&& acfg is Some
        &&& ({
            let pool = pda_of(seq![spec_pool_seed(), acfg->0, pair.0, pair.1], program);
            &&& pool is Some
            &&& pda_of(seq![spec_pool_vault_seed(), pool->0, pair.0], program) is Some
            &&& pda_of(seq![spec_pool_vault_seed(), pool->0, pair.1], program) is Some
            &&& pda_of(seq![spec_observation_seed(), pool->0], program) is Some
            &&& pda_of(seq![spec_bitmap_extension_seed(), pool->0], program) is Some
        })
    })
}

/// Everything the pool-creation instruction needs: the mint pair in
/// canonical order, the oriented initial price with its fixed-point
/// sqrt form and tick, and every derived account address.
pub struct CreatePoolPlan {
    pub mint_0: Address,
    pub mint_1: Address,
    pub price: PriceRatio,
    pub sqrt_price_x64: u128,
    pub tick: i32,
    pub amm_config: Address,
    pub pool: Address,
    pub token_vault_0: Address,
    pub token_vault_1: Address,
    pub observation: Address,
    pub tick_array_bitmap: Address,
}

/// Plan a pool creation. If the mints arrive out of canonical order
/// they are swapped, their decimals with them, and the price is
/// inverted exactly. The oriented price is then converted to its sqrt
/// fixed-point form; its tick must lie in the library's domain.
pub fn plan_create_pool(
    program: &Address,
    config_index: u16,
    mint_0: &Address,
    decimals_0: u8,
    mint_1: &Address,
    decimals_1: u8,
    price: &PriceRatio,
) -> (r: Result<CreatePoolPlan, PlanError>)
    requires
        price.wf(),
    ensures
        r matches Ok(plan) ==> {
            &&& !spec_bytes_lt(plan.mint_1@, plan.mint_0@, 0)
            &&& (plan.mint_0@ == mint_0@ && plan.mint_1@ == mint_1@ && plan.price == *price)
                || (plan.mint_0@ == mint_1@ && plan.mint_1@ == mint_0@ && plan.price
                == (PriceRatio { numerator: price.denominator, denominator: price.numerator }))
            &&& plan.price.numerator >= 1
            &&& (exists|d0: u8, d1: u8|
                #![auto]
                spec_is_sqrt_price_x64(
                    plan.price.numerator * spec_pow10(d1 as nat),
                    plan.price.denominator * spec_pow10(d0 as nat),
                    plan.sqrt_price_x64 as int,
                ) && ((d0 == decimals_0 && d1 == decimals_1) || (d0 == decimals_1 && d1
                    == decimals_0)))
            &&& plan.tick == tick_of_sqrt_price(plan.sqrt_price_x64)
            &&& pda_of(
                seq![spec_amm_config_seed(), spec_u16_be(config_index as int)],
                program@,
            ) == Some(plan.amm_config@)
            &&& pda_of(
                seq![spec_pool_seed(), plan.amm_config@, plan.mint_0@, plan.mint_1@],
                program@,
            ) == Some(plan.pool@)
            &&& pda_of(
                seq![spec_pool_vault_seed(), plan.pool@, plan.mint_0@],
                program@,
            ) == Some(plan.token_vault_0@)
            &&& pda_of(
                seq![spec_pool_vault_seed(), plan.pool@, plan.mint_1@],
                program@,
            ) == Some(plan.token_vault_1@)
            &&& pda_of(seq![spec_observation_seed(), plan.pool@], program@) == Some(
                plan.observation@,
            )
            &&& pda_of(
                seq![spec_bitmap_extension_seed(), plan.pool@],
                program@,
            ) == Some(plan.tick_array_bitmap@)
        },
        spec_create_pool_feasible(
            program@,
            config_index,
            mint_0@,
            decimals_0,
            mint_1@,
            decimals_1,
            *price,
        ) ==> r is Ok,
{
    let ghost feasible = spec_create_pool_feasible(
        program@,
        config_index,
        mint_0@,
        decimals_0,
        mint_1@,
        decimals_1,
        *price,
    );
    // Order the mint pair; inverting the price keeps it expressed in
    // token-1 units per token-0 unit for the swapped pair.
    let swapped: bool = mint_1.less_than(mint_0);
    proof {
        if spec_bytes_lt(mint_1@, mint_0@, 0) {
            lemma_bytes_lt_asym(mint_1@, mint_0@, 0);
        }
    }
    let (m0, d0, m1, d1, oriented) = if swapped {
        if price.numerator == 0 {
            proof {
                assert(!feasible);
            }
            return Err(PlanError::DomainError);
        }
        (
            *mint_1,
            decimals_1,
            *mint_0,
            decimals_0,
            PriceRatio { numerator: price.denominator, denominator: price.numerator },
        )
    } else {
        (*mint_0, decimals_0, *mint_1, decimals_1, *price)
    };
    proof {
        assert((spec_sorted_mints(mint_0@, mint_1@).0 == m0@) && (spec_sorted_mints(
            mint_0@,
            mint_1@,
        ).1 == m1@));
    }
    let sqrt_price_x64 = match price_to_sqrt_price_x64(&oriented, d0, d1) {
        Ok(p) => p,
        Err(e) => {
            proof {
                assert(!feasible);
            }
            return Err(e);
        },
    };
    proof {
        assert(spec_is_sqrt_price_x64(
            oriented.numerator * spec_pow10(d1 as nat),
            oriented.denominator * spec_pow10(d0 as nat),
            sqrt_price_x64 as int,
        ));
    }
    let tick = match get_tick_at_sqrt_price(sqrt_price_x64) {
        Ok(t) => t,
        Err(_) => {
            proof {
                if feasible {
                    let onum_s: int = if spec_bytes_lt(mint_1@, mint_0@, 0) {
                        price.denominator as int
                    } else {
                        price.numerator as int
                    };
                    let oden_s: int = if spec_bytes_lt(mint_1@, mint_0@, 0) {
                        price.numerator as int
                    } else {
                        price.denominator as int
                    };
                    assert(oriented.numerator == onum_s && oriented.denominator == oden_s);
                    assert(spec_sqrt_in_tick_domain(
                        oriented.numerator * spec_pow10(d1 as nat),
                        oriented.denominator * spec_pow10(d0 as nat),
                    ));
                    assert(spec_is_sqrt_price_x64(
                        oriented.numerator * spec_pow10(d1 as nat),
                        oriented.denominator * spec_pow10(d0 as nat),
                        sqrt_price_x64 as int,
                    ));
                    assert(false);
                }
            }
            return Err(PlanError::RangeError);
        },
    };
    let amm_config = match amm_config_address(program, config_index) {
        Ok(a) => a,
        Err(e) => {
            proof {
                assert(!feasible);
            }
            return Err(e);
        },
    };
    let pool = match pool_address(program, &amm_config, &m0, &m1) {
        Ok(a) => a,
        Err(e) => {
            proof {
                assert(!feasible);
            }
            return Err(e);
        },
    };
    let token_vault_0 = match vault_address(program, &pool, &m0) {
        Ok(a) => a,
        Err(e) => {
            proof {
                assert(!feasible);
            }
            return Err(e);
        },
    };
    let token_vault_1 = match vault_address(program, &pool, &m1) {
        Ok(a) => a,
        Err(e) => {
            proof {
                assert(!feasible);
            }
            return Err(e);
        },
    };
    let observation = match observation_address(program, &pool) {
        Ok(a) => a,
        Err(e) => {
            proof {
                assert(!feasible);
            }
            return Err(e);
        },
    };
    let tick_array_bitmap = match bitmap_extension_address(program, &pool) {
        Ok(a) => a,
        Err(e) => {
            proof {
                assert(!feasible);
            }
            return Err(e);
        },
    };
    Ok(CreatePoolPlan {
        mint_0: m0,
        mint_1: m1,
        price: oriented,
        sqrt_price_x64,
        tick,
        amm_config,
        pool,
        token_vault_0,
        token_vault_1,
        observation,
        tick_array_bitmap,
    })
}

} // verus!
