//! Deterministic address derivation: program-derived addresses computed
//! from fixed seed strings, big-endian-encoded numeric components, and
//! other addresses' raw bytes.
use vstd::prelude::*;
use crate::PlanError;

verus! {

/// A 32-byte on-ledger address, viewed as its byte sequence.
#[derive(Clone, Copy, Debug)]
pub struct Address {
    pub bytes: [u8; 32],
}

impl View for Address {
    type V = Seq<u8>;

    open spec fn view(&self) -> Seq<u8> {
        self.bytes@
    }
}

impl PartialEq for Address {
    fn eq(&self, other: &Address) -> (r: bool) {
        self.equals(other)
    }
}

impl vstd::std_specs::cmp::PartialEqSpecImpl for Address {
    open spec fn obeys_eq_spec() -> bool {
        true
    }

    open spec fn eq_spec(&self, other: &Address) -> bool {
        self@ == other@
    }
}

impl Address {
    /// Byte-wise equality of two addresses.
    pub fn equals(&self, other: &Address) -> (r: bool)
        ensures
            r <==> self@ == other@,
    {
        let mut i: usize = 0;
        while i < 32
            invariant
                i <= 32,
                forall|j: int| 0 <= j < i ==> self.bytes@[j] == other.bytes@[j],
            decreases 32 - i,
        {
            if self.bytes[i] != other.bytes[i] {
                proof {
                    assert(self@ != other@) by {
                        assert(self@[i as int] != other@[i as int]);
                    }
                }
                return false;
            }
            i += 1;
        }
        proof {
            assert(self@ =~= other@);
        }
        true
    }

    /// Strict lexicographic (big-endian numeric) order on addresses,
    /// the order by which a pool's two token mints are sorted.
    pub fn less_than(&self, other: &Address) -> (r: bool)
        ensures
            r <==> spec_bytes_lt(self@, other@, 0),
    {
        let mut i: usize = 0;
        while i < 32
            invariant
                i <= 32,
                forall|j: int| 0 <= j < i ==> self.bytes@[j] == other.bytes@[j],
                spec_bytes_lt(self@, other@, 0) <==> spec_bytes_lt(self@, other@, i as int),
            decreases 32 - i,
        {
            if self.bytes[i] < other.bytes[i] {
                return true;
            }
            if self.bytes[i] > other.bytes[i] {
                return false;
            }
            i += 1;
        }
        false
    }

    /// The contents as a growable byte vector, for use as a seed.
    pub fn to_vec(&self) -> (r: Vec<u8>)
        ensures
            r@ == self@,
    {
        let mut v: Vec<u8> = Vec::new();
        let mut i: usize = 0;
        while i < 32
            invariant
                i <= 32,
                v@ == self.bytes@.subrange(0, i as int),
            decreases 32 - i,
        {
            v.push(self.bytes[i]);
            proof {
                assert(v@ =~= self.bytes@.subrange(0, i + 1));
            }
            i += 1;
        }
        proof {
            assert(self.bytes@.subrange(0, 32) =~= self@);
        }
        v
    }
}

/// The first of the two addresses is strictly below the second in the
/// lexicographic order, deciding from position `i` on (earlier bytes
/// assumed equal).
pub open spec fn spec_bytes_lt(a: Seq<u8>, b: Seq<u8>, i: int) -> bool
    decreases 32 - i,
{
    if i < 0 || i >= 32 {
        false
    } else if a[i] < b[i] {
        true
    } else if a[i] > b[i] {
        false
    } else {
        spec_bytes_lt(a, b, i + 1)
    }
}

/// Strict lexicographic order is asymmetric: two addresses never
/// precede each other.
pub proof fn lemma_bytes_lt_asym(a: Seq<u8>, b: Seq<u8>, i: int)
    requires
        spec_bytes_lt(a, b, i),
    ensures
        !spec_bytes_lt(b, a, i),
    decreases 32 - i,
{
    if 0 <= i < 32 && a[i] == b[i] {
        lemma_bytes_lt_asym(a, b, i + 1);
    }
}

/// What the well-known program-derived-address search returns for a seed
/// sequence and a program id: the first off-curve hash found while
/// walking bump values downward, or nothing in the statistically
/// improbable event that no bump yields a valid address. A pure function
/// of its inputs: no randomness, no external state.
pub uninterp spec fn pda_of(seeds: Seq<Seq<u8>>, program_id: Seq<u8>) -> Option<Seq<u8>>;

/// The sequence of byte sequences a vector of seed vectors stands for.
pub open spec fn seeds_view(seeds: Seq<Vec<u8>>) -> Seq<Seq<u8>> {
    seeds.map_values(|s: Vec<u8>| s@)
}

/// Relies on solana_program::pubkey::Pubkey::try_find_program_address:
/// it deterministically searches bump values downward for an off-curve
/// derived address and returns None rather than panicking when no bump
/// works.
#[verifier::external_body]
fn find_pda(seeds: &Vec<Vec<u8>>, program_id: &[u8; 32]) -> (r: Option<[u8; 32]>)
    ensures
        r matches Some(a) ==> pda_of(seeds_view(seeds@), program_id@) == Some(a@),
        r is None ==> pda_of(seeds_view(seeds@), program_id@) is None,
{
    let slices: Vec<&[u8]> = seeds.iter().map(|s| s.as_slice()).collect();
    let program = solana_program::pubkey::Pubkey::new_from_array(*program_id);
    solana_program::pubkey::Pubkey::try_find_program_address(&slices, &program)
        .map(|(key, _bump)| key.to_bytes())
}

/// Derive the address for `seeds` under `program`. The bump value found
/// by the search is discarded; only the address is kept.
pub fn derive_address(seeds: Vec<Vec<u8>>, program: &Address) -> (r: Result<Address, PlanError>)
    ensures
        r matches Ok(a) ==> pda_of(seeds_view(seeds@), program@) == Some(a@),
        r is Err ==> r == Err::<Address, PlanError>(PlanError::MissingAccountData)
            && pda_of(seeds_view(seeds@), program@) is None,
{
    match find_pda(&seeds, &program.bytes) {
        Some(bytes) => Ok(Address { bytes }),
        None => Err(PlanError::MissingAccountData),
    }
}


/// The token program's well-known address, the owner program of
/// ordinary token accounts.
pub open spec fn spec_token_program_id() -> Seq<u8> {
    seq![
        6u8, 221u8, 246u8, 225u8, 215u8, 101u8, 161u8, 147u8,
        217u8, 203u8, 225u8, 70u8, 206u8, 235u8, 121u8, 172u8,
        28u8, 180u8, 133u8, 237u8, 95u8, 91u8, 55u8, 145u8,
        58u8, 140u8, 245u8, 133u8, 126u8, 255u8, 0u8, 169u8,
    ]
}

/// The associated-token program's well-known address, under which a
/// wallet's canonical token accounts are derived.
pub open spec fn spec_ata_program_id() -> Seq<u8> {
    seq![
        140u8, 151u8, 37u8, 143u8, 78u8, 36u8, 137u8, 241u8,
        187u8, 61u8, 16u8, 41u8, 20u8, 142u8, 13u8, 131u8,
        11u8, 90u8, 19u8, 153u8, 218u8, 255u8, 16u8, 132u8,
        4u8, 142u8, 123u8, 216u8, 219u8, 233u8, 248u8, 89u8,
    ]
}

/// The token program's address as a value.
pub fn token_program_id() -> (r: Address)
    ensures
        r@ == spec_token_program_id(),
{
    let bytes: [u8; 32] = [
        6u8, 221u8, 246u8, 225u8, 215u8, 101u8, 161u8, 147u8,
        217u8, 203u8, 225u8, 70u8, 206u8, 235u8, 121u8, 172u8,
        28u8, 180u8, 133u8, 237u8, 95u8, 91u8, 55u8, 145u8,
        58u8, 140u8, 245u8, 133u8, 126u8, 255u8, 0u8, 169u8,
    ];
    let r = Address { bytes };
    proof {
        assert(r@ =~= spec_token_program_id());
    }
    r
}

/// The associated-token program's address as a value.
pub fn ata_program_id() -> (r: Address)
    ensures
        r@ == spec_ata_program_id(),
{
    let bytes: [u8; 32] = [
        140u8, 151u8, 37u8, 143u8, 78u8, 36u8, 137u8, 241u8,
        187u8, 61u8, 16u8, 41u8, 20u8, 142u8, 13u8, 131u8,
        11u8, 90u8, 19u8, 153u8, 218u8, 255u8, 16u8, 132u8,
        4u8, 142u8, 123u8, 216u8, 219u8, 233u8, 248u8, 89u8,
    ];
    let r = Address { bytes };
    proof {
        assert(r@ =~= spec_ata_program_id());
    }
    r
}

/// A wallet's canonical (associated) token account for a mint held by
/// the token program: derived from the wallet, the token program and
/// the mint under the associated-token program. This fixed seed layout
/// is the associated-token program's whole derivation rule.
pub fn associated_token_address(wallet: &Address, mint: &Address) -> (r: Result<
    Address,
    PlanError,
>)
    ensures
        r matches Ok(a) ==> pda_of(
            seq![wallet@, spec_token_program_id(), mint@],
            spec_ata_program_id(),
        ) == Some(a@),
        r is Err ==> r == Err::<Address, PlanError>(PlanError::MissingAccountData) && pda_of(
            seq![wallet@, spec_token_program_id(), mint@],
            spec_ata_program_id(),
        ) is None,
{
    let mut seeds: Vec<Vec<u8>> = Vec::new();
    seeds.push(wallet.to_vec());
    seeds.push(token_program_id().to_vec());
    seeds.push(mint.to_vec());
    proof {
        assert(seeds_view(seeds@) =~= seq![wallet@, spec_token_program_id(), mint@]);
    }
    derive_address(seeds, &ata_program_id())
}

/// The fixed seed string of the fee-configuration account.
pub open spec fn spec_amm_config_seed() -> Seq<u8> {
    seq![97u8, 109u8, 109u8, 95u8, 99u8, 111u8, 110u8, 102u8, 105u8, 103u8]
}

/// The fixed seed string of a pool account.
pub open spec fn spec_pool_seed() -> Seq<u8> {
    seq![112u8, 111u8, 111u8, 108u8]
}

/// The fixed seed string of a pool vault account.
pub open spec fn spec_pool_vault_seed() -> Seq<u8> {
    seq![112u8, 111u8, 111u8, 108u8, 95u8, 118u8, 97u8, 117u8, 108u8, 116u8]
}

/// The fixed seed string of a pool's observation (oracle) account.
pub open spec fn spec_observation_seed() -> Seq<u8> {
    seq![111u8, 98u8, 115u8, 101u8, 114u8, 118u8, 97u8, 116u8, 105u8, 111u8, 110u8]
}

/// The fixed seed string of a tick-array account.
pub open spec fn spec_tick_array_seed() -> Seq<u8> {
    seq![116u8, 105u8, 99u8, 107u8, 95u8, 97u8, 114u8, 114u8, 97u8, 121u8]
}

/// The fixed seed string of protocol and personal position accounts.
pub open spec fn spec_position_seed() -> Seq<u8> {
    seq![112u8, 111u8, 115u8, 105u8, 116u8, 105u8, 111u8, 110u8]
}

/// The fixed seed string of a pool's tick-array bitmap extension account.
pub open spec fn spec_bitmap_extension_seed() -> Seq<u8> {
    seq![
        112u8, 111u8, 111u8, 108u8, 95u8, 116u8, 105u8, 99u8, 107u8, 95u8, 97u8, 114u8, 114u8, 97u8,
        121u8, 95u8, 98u8, 105u8, 116u8, 109u8, 97u8, 112u8, 95u8, 101u8, 120u8, 116u8, 101u8, 110u8,
        115u8, 105u8, 111u8, 110u8,
    ]
}

fn amm_config_seed() -> (r: Vec<u8>)
    ensures
        r@ == spec_amm_config_seed(),
{
    let v: Vec<u8> = vec![97u8, 109u8, 109u8, 95u8, 99u8, 111u8, 110u8, 102u8, 105u8, 103u8];
    proof {
        assert(v@ =~= spec_amm_config_seed());
    }
    v
}

fn pool_seed() -> (r: Vec<u8>)
    ensures
        r@ == spec_pool_seed(),
{
    let v: Vec<u8> = vec![112u8, 111u8, 111u8, 108u8];
    proof {
        assert(v@ =~= spec_pool_seed());
    }
    v
}

fn pool_vault_seed() -> (r: Vec<u8>)
    ensures
        r@ == spec_pool_vault_seed(),
{
    let v: Vec<u8> = vec![112u8, 111u8, 111u8, 108u8, 95u8, 118u8, 97u8, 117u8, 108u8, 116u8];
    proof {
        assert(v@ =~= spec_pool_vault_seed());
    }
    v
}

fn observation_seed() -> (r: Vec<u8>)
    ensures
        r@ == spec_observation_seed(),
{
    let v: Vec<u8> = vec![111u8, 98u8, 115u8, 101u8, 114u8, 118u8, 97u8, 116u8, 105u8, 111u8, 110u8];
    proof {
        assert(v@ =~= spec_observation_seed());
    }
    v
}

fn tick_array_seed() -> (r: Vec<u8>)
    ensures
        r@ == spec_tick_array_seed(),
{
    let v: Vec<u8> = vec![116u8, 105u8, 99u8, 107u8, 95u8, 97u8, 114u8, 114u8, 97u8, 121u8];
    proof {
        assert(v@ =~= spec_tick_array_seed());
    }
    v
}

fn position_seed() -> (r: Vec<u8>)
    ensures
        r@ == spec_position_seed(),
{
    let v: Vec<u8> = vec![112u8, 111u8, 115u8, 105u8, 116u8, 105u8, 111u8, 110u8];
    proof {
        assert(v@ =~= spec_position_seed());
    }
    v
}

fn bitmap_extension_seed() -> (r: Vec<u8>)
    ensures
        r@ == spec_bitmap_extension_seed(),
{
    let v: Vec<u8> = vec![
        112u8, 111u8, 111u8, 108u8, 95u8, 116u8, 105u8, 99u8, 107u8, 95u8, 97u8, 114u8, 114u8, 97u8,
        121u8, 95u8, 98u8, 105u8, 116u8, 109u8, 97u8, 112u8, 95u8, 101u8, 120u8, 116u8, 101u8, 110u8,
        115u8, 105u8, 111u8, 110u8,
    ];
    proof {
        assert(v@ =~= spec_bitmap_extension_seed());
    }
    v
}

/// The big-endian bytes of an unsigned 16-bit word.
pub open spec fn spec_u16_be(x: int) -> Seq<u8> {
    seq![(x / 256) as u8, (x % 256) as u8]
}

/// Encode an unsigned 16-bit word as two big-endian bytes.
pub fn u16_be_bytes(x: u16) -> (r: Vec<u8>)
    ensures
        r@ == spec_u16_be(x as int),
{
    let v: Vec<u8> = vec![(x / 256) as u8, (x % 256) as u8];
    proof {
        assert(v@ =~= spec_u16_be(x as int));
    }
    v
}

/// The two's-complement value of a signed 32-bit word, as an unsigned
/// integer.
pub open spec fn spec_i32_unsigned(x: int) -> int {
    if x >= 0 {
        x
    } else {
        x + 0x1_0000_0000
    }
}

/// The big-endian bytes of a signed 32-bit word, two's complement.
pub open spec fn spec_i32_be(x: int) -> Seq<u8> {
    let u = spec_i32_unsigned(x);
    seq![
        (u / 0x100_0000) as u8,
        ((u / 0x1_0000) % 256) as u8,
        ((u / 256) % 256) as u8,
        (u % 256) as u8,
    ]
}

/// Encode a signed 32-bit word as four big-endian bytes of its
/// two's-complement value.
pub fn i32_be_bytes(x: i32) -> (r: Vec<u8>)
    ensures
        r@ == spec_i32_be(x as int),
{
    let u: u32 = if x >= 0 {
        x as u32
    } else {
        let down: i64 = x as i64 + 0x1_0000_0000;
        down as u32
    };
    proof {
        assert(u == spec_i32_unsigned(x as int));
    }
    let v: Vec<u8> = vec![
        (u / 0x100_0000) as u8,
        ((u / 0x1_0000) % 256) as u8,
        ((u / 256) % 256) as u8,
        (u % 256) as u8,
    ];
    proof {
        assert((u as int / 0x100_0000) < 256);
        assert(v@ =~= spec_i32_be(x as int));
    }
    v
}

/// Address of the fee-configuration account for a configuration index.
pub fn amm_config_address(program: &Address, index: u16) -> (r: Result<Address, PlanError>)
    ensures
        r matches Ok(a) ==> pda_of(
            seq![spec_amm_config_seed(), spec_u16_be(index as int)],
            program@,
        ) == Some(a@),
        r is Err ==> r == Err::<Address, PlanError>(PlanError::MissingAccountData) && pda_of(
            seq![spec_amm_config_seed(), spec_u16_be(index as int)],
            program@,
        ) is None,
{
    let mut seeds: Vec<Vec<u8>> = Vec::new();
    seeds.push(amm_config_seed());
    seeds.push(u16_be_bytes(index));
    proof {
        assert(seeds_view(seeds@) =~= seq![spec_amm_config_seed(), spec_u16_be(index as int)]);
    }
    derive_address(seeds, program)
}

/// Address of the pool for an ordered mint pair under a configuration.
pub fn pool_address(
    program: &Address,
    amm_config: &Address,
    mint_0: &Address,
    mint_1: &Address,
) -> (r: Result<Address, PlanError>)
    ensures
        r matches Ok(a) ==> pda_of(
            seq![spec_pool_seed(), amm_config@, mint_0@, mint_1@],
            program@,
        ) == Some(a@),
        r is Err ==> r == Err::<Address, PlanError>(PlanError::MissingAccountData) && pda_of(
            seq![spec_pool_seed(), amm_config@, mint_0@, mint_1@],
            program@,
        ) is None,
{
    let mut seeds: Vec<Vec<u8>> = Vec::new();
    seeds.push(pool_seed());
    seeds.push(amm_config.to_vec());
    seeds.push(mint_0.to_vec());
    seeds.push(mint_1.to_vec());
    proof {
        assert(seeds_view(seeds@) =~= seq![spec_pool_seed(), amm_config@, mint_0@, mint_1@]);
    }
    derive_address(seeds, program)
}

/// Address of the pool's vault for one of its token mints.
pub fn vault_address(
    program: &Address,
    pool: &Address,
    mint: &Address,
) -> (r: Result<Address, PlanError>)
    ensures
        r matches Ok(a) ==> pda_of(
            seq![spec_pool_vault_seed(), pool@, mint@],
            program@,
        ) == Some(a@),
        r is Err ==> r == Err::<Address, PlanError>(PlanError::MissingAccountData) && pda_of(
            seq![spec_pool_vault_seed(), pool@, mint@],
            program@,
        ) is None,
{
    let mut seeds: Vec<Vec<u8>> = Vec::new();
    seeds.push(pool_vault_seed());
    seeds.push(pool.to_vec());
    seeds.push(mint.to_vec());
    proof {
        assert(seeds_view(seeds@) =~= seq![spec_pool_vault_seed(), pool@, mint@]);
    }
    derive_address(seeds, program)
}

/// Address of the pool's observation (oracle) account.
pub fn observation_address(program: &Address, pool: &Address) -> (r: Result<Address, PlanError>)
    ensures
        r matches Ok(a) ==> pda_of(seq![spec_observation_seed(), pool@], program@) == Some(a@),
        r is Err ==> r == Err::<Address, PlanError>(PlanError::MissingAccountData) && pda_of(seq![spec_observation_seed(), pool@], program@) is None,
{
    let mut seeds: Vec<Vec<u8>> = Vec::new();
    seeds.push(observation_seed());
    seeds.push(pool.to_vec());
    proof {
        assert(seeds_view(seeds@) =~= seq![spec_observation_seed(), pool@]);
    }
    derive_address(seeds, program)
}

/// Address of the pool's tick-array bitmap extension account.
pub fn bitmap_extension_address(
    program: &Address,
    pool: &Address,
) -> (r: Result<Address, PlanError>)
    ensures
        r matches Ok(a) ==> pda_of(
            seq![spec_bitmap_extension_seed(), pool@],
            program@,
        ) == Some(a@),
        r is Err ==> r == Err::<Address, PlanError>(PlanError::MissingAccountData) && pda_of(
            seq![spec_bitmap_extension_seed(), pool@],
            program@,
        ) is None,
{
    let mut seeds: Vec<Vec<u8>> = Vec::new();
    seeds.push(bitmap_extension_seed());
    seeds.push(pool.to_vec());
    proof {
        assert(seeds_view(seeds@) =~= seq![spec_bitmap_extension_seed(), pool@]);
    }
    derive_address(seeds, program)
}

/// Address of the tick array whose bins start at `start_index`.
pub fn tick_array_address(
    program: &Address,
    pool: &Address,
    start_index: i32,
) -> (r: Result<Address, PlanError>)
    ensures
        r matches Ok(a) ==> pda_of(
            seq![spec_tick_array_seed(), pool@, spec_i32_be(start_index as int)],
            program@,
        ) == Some(a@),
        r is Err ==> r == Err::<Address, PlanError>(PlanError::MissingAccountData) && pda_of(
            seq![spec_tick_array_seed(), pool@, spec_i32_be(start_index as int)],
            program@,
        ) is None,
{
    let mut seeds: Vec<Vec<u8>> = Vec::new();
    seeds.push(tick_array_seed());
    seeds.push(pool.to_vec());
    seeds.push(i32_be_bytes(start_index));
    proof {
        assert(seeds_view(seeds@) =~= seq![
            spec_tick_array_seed(),
            pool@,
            spec_i32_be(start_index as int),
        ]);
    }
    derive_address(seeds, program)
}

/// Address of the protocol position account for a pool and tick range.
pub fn protocol_position_address(
    program: &Address,
    pool: &Address,
    tick_lower: i32,
    tick_upper: i32,
) -> (r: Result<Address, PlanError>)
    ensures
        r matches Ok(a) ==> pda_of(
            seq![
                spec_position_seed(),
                pool@,
                spec_i32_be(tick_lower as int),
                spec_i32_be(tick_upper as int),
            ],
            program@,
        ) == Some(a@),
        r is Err ==> r == Err::<Address, PlanError>(PlanError::MissingAccountData) && pda_of(
            seq![
                spec_position_seed(),
                pool@,
                spec_i32_be(tick_lower as int),
                spec_i32_be(tick_upper as int),
            ],
            program@,
        ) is None,
{
    let mut seeds: Vec<Vec<u8>> = Vec::new();
    seeds.push(position_seed());
    seeds.push(pool.to_vec());
    seeds.push(i32_be_bytes(tick_lower));
    seeds.push(i32_be_bytes(tick_upper));
    proof {
        assert(seeds_view(seeds@) =~= seq![
            spec_position_seed(),
            pool@,
            spec_i32_be(tick_lower as int),
            spec_i32_be(tick_upper as int),
        ]);
    }
    derive_address(seeds, program)
}

/// Address of the personal position account for a position NFT mint.
pub fn personal_position_address(
    program: &Address,
    nft_mint: &Address,
) -> (r: Result<Address, PlanError>)
    ensures
        r matches Ok(a) ==> pda_of(seq![spec_position_seed(), nft_mint@], program@) == Some(a@),
        r is Err ==> r == Err::<Address, PlanError>(PlanError::MissingAccountData) && pda_of(seq![spec_position_seed(), nft_mint@], program@) is None,
{
    let mut seeds: Vec<Vec<u8>> = Vec::new();
    seeds.push(position_seed());
    seeds.push(nft_mint.to_vec());
    proof {
        assert(seeds_view(seeds@) =~= seq![spec_position_seed(), nft_mint@]);
    }
    derive_address(seeds, program)
}

} // verus!
