//! Position matching: scanning the caller's existing positions for one
//! exactly covering the requested tick range on the requested pool.
use vstd::prelude::*;
use crate::address::{Address, pda_of, spec_position_seed, personal_position_address};
use crate::PlanError;

verus! {

/// An existing position read from ledger state: the NFT mint that owns
/// it, the pool it belongs to, and its tick range. Read-only input,
/// never mutated here.
#[derive(Clone, Copy, Debug)]
pub struct Position {
    pub nft_mint: Address,
    pub pool_id: Address,
    pub tick_lower_index: i32,
    pub tick_upper_index: i32,
}

/// The position covers exactly the requested range on the requested
/// pool.
pub open spec fn spec_position_matches(
    p: Position,
    pool_id: Seq<u8>,
    tick_lower: i32,
    tick_upper: i32,
) -> bool {
    &&& p.pool_id@ == pool_id
    &&& p.tick_lower_index == tick_lower
    &&& p.tick_upper_index == tick_upper
}

/// Linear scan for the first position whose pool and tick range match
/// exactly. No match is a valid outcome: it signals that a new position
/// is required, a decision left to the caller.
pub fn find_position(
    positions: &Vec<Position>,
    pool_id: &Address,
    tick_lower: i32,
    tick_upper: i32,
) -> (r: Option<Position>)
    ensures
        r matches Some(p) ==> exists|i: int|
            0 <= i < positions@.len() && positions@[i] == p && spec_position_matches(
                p,
                pool_id@,
                tick_lower,
                tick_upper,
            ) && forall|j: int|
                0 <= j < i ==> !spec_position_matches(
                    positions@[j],
                    pool_id@,
                    tick_lower,
                    tick_upper,
                ),
        r is None ==> forall|j: int|
            0 <= j < positions@.len() ==> !spec_position_matches(
                positions@[j],
                pool_id@,
                tick_lower,
                tick_upper,
            ),
{
    let n: usize = positions.len();
    let mut i: usize = 0;
    while i < n
        invariant
            n == positions@.len(),
            i <= n,
            forall|j: int|
                0 <= j < i ==> !spec_position_matches(
                    positions@[j],
                    pool_id@,
                    tick_lower,
                    tick_upper,
                ),
        decreases n - i,
    {
        let p = positions[i];
        if p.pool_id.equals(pool_id) && p.tick_lower_index == tick_lower && p.tick_upper_index
            == tick_upper {
            return Some(p);
        }
        i += 1;
    }
    None
}

/// One token account of the caller, as the position scan reads it:
/// the account's own address, its mint, its balance and the mint's
/// decimal count.
#[derive(Clone, Copy, Debug)]
pub struct TokenInfo {
    pub key: Address,
    pub mint: Address,
    pub amount: u64,
    pub decimals: u8,
}

/// The token account holds exactly one unit of a zero-decimal mint:
/// the shape of a position NFT.
pub open spec fn spec_is_position_nft(t: TokenInfo) -> bool {
    t.decimals == 0 && t.amount == 1
}

/// Keep the caller's position NFTs and derive each one's personal
/// position address. The NFTs come back in their original order, and
/// the address vector runs in step with them.
pub fn select_nft_positions(tokens: &Vec<TokenInfo>, program: &Address) -> (r: Result<
    (Vec<TokenInfo>, Vec<Address>),
    PlanError,
>)
    ensures
        r is Err ==> r == Err::<(Vec<TokenInfo>, Vec<Address>), PlanError>(
            PlanError::MissingAccountData,
        ) && exists|j: int|
            0 <= j < tokens@.len() && spec_is_position_nft(#[trigger] tokens@[j]) && pda_of(
                seq![spec_position_seed(), tokens@[j].mint@],
                program@,
            ) is None,
        r matches Ok(pair) ==> {
            &&& pair.0@ == tokens@.filter(|t: TokenInfo| spec_is_position_nft(t))
            &&& pair.1@.len() == pair.0@.len()
            &&& forall|k: int|
                0 <= k < pair.0@.len() ==> pda_of(
                    seq![spec_position_seed(), pair.0@[k].mint@],
                    program@,
                ) == Some(#[trigger] pair.1@[k]@)
        },
{
    let ghost pred = |t: TokenInfo| spec_is_position_nft(t);
    let mut nft_accounts: Vec<TokenInfo> = Vec::new();
    let mut position_addresses: Vec<Address> = Vec::new();
    let n: usize = tokens.len();
    let mut i: usize = 0;
    proof {
        assert(tokens@.take(0int).filter(pred) =~= Seq::<TokenInfo>::empty()) by {
            reveal_with_fuel(Seq::<TokenInfo>::filter, 2);
        }
    }
    while i < n
        invariant
            n == tokens@.len(),
            i <= n,
            pred == (|t: TokenInfo| spec_is_position_nft(t)),
            nft_accounts@ == tokens@.take(i as int).filter(pred),
            position_addresses@.len() == nft_accounts@.len(),
            forall|k: int|
                0 <= k < nft_accounts@.len() ==> pda_of(
                    seq![spec_position_seed(), nft_accounts@[k].mint@],
                    program@,
                ) == Some(#[trigger] position_addresses@[k]@),
        decreases n - i,
    {
        let t = tokens[i];
        proof {
            assert(tokens@.take(i + 1).drop_last() =~= tokens@.take(i as int));
            assert(tokens@.take(i + 1).last() == tokens@[i as int]);
            reveal(Seq::filter);
        }
        if t.decimals == 0 && t.amount == 1 {
            let pda = match personal_position_address(program, &t.mint) {
                Ok(a) => a,
                Err(e) => {
                    proof {
                        assert(spec_is_position_nft(tokens@[i as int]) && pda_of(
                            seq![spec_position_seed(), tokens@[i as int].mint@],
                            program@,
                        ) is None);
                    }
                    return Err(e);
                },
            };
            nft_accounts.push(t);
            position_addresses.push(pda);
        }
        i += 1;
    }
    proof {
        assert(tokens@.take(n as int) =~= tokens@);
    }
    Ok((nft_accounts, position_addresses))
}

} // verus!
