//! Transfer-fee inversion: the fee a fee-bearing token mint would deduct
//! on a transfer that nets a given post-fee amount, for a given fee epoch.
use vstd::prelude::*;
use vstd::arithmetic::div_mod::lemma_fundamental_div_mod_converse;
use vstd::arithmetic::div_mod::lemma_fundamental_div_mod;
use crate::address::Address;
use crate::slippage::spec_ceil_div;
use crate::PlanError;

verus! {

/// One hundred percent in basis points; also the sentinel at which the
/// configured maximum flat fee applies unconditionally.
pub const MAX_FEE_BASIS_POINTS: u16 = 10_000;

/// One epoch's transfer-fee schedule: the fee rate in basis points and
/// the flat ceiling the assessed fee never exceeds.
#[derive(Clone, Copy, Debug, PartialEq, Eq, Structural)]
pub struct TransferFee {
    /// First epoch from which this schedule takes effect.
    pub epoch: u64,
    /// Maximum fee assessed on a transfer, in tokens.
    pub maximum_fee: u64,
    /// Fee rate in increments of one hundredth of a percent.
    pub transfer_fee_basis_points: u16,
}

impl TransferFee {
    /// A well-formed schedule never exceeds one hundred percent.
    pub open spec fn wf(self) -> bool {
        self.transfer_fee_basis_points <= MAX_FEE_BASIS_POINTS
    }
}

/// A mint's transfer-fee extension: the older schedule and the newer one
/// that replaces it from its epoch on.
#[derive(Clone, Copy, Debug, PartialEq, Eq, Structural)]
pub struct TransferFeeConfigState {
    pub older_transfer_fee: TransferFee,
    pub newer_transfer_fee: TransferFee,
}

impl TransferFeeConfigState {
    pub open spec fn wf(self) -> bool {
        self.older_transfer_fee.wf() && self.newer_transfer_fee.wf()
    }

    /// The schedule active at `epoch`: the newer one once its epoch has
    /// been reached, the older one before.
    pub open spec fn spec_epoch_fee(self, epoch: u64) -> TransferFee {
        if epoch >= self.newer_transfer_fee.epoch {
            self.newer_transfer_fee
        } else {
            self.older_transfer_fee
        }
    }

    /// Select the schedule active at `epoch`.
    pub fn get_epoch_fee(&self, epoch: u64) -> (r: TransferFee)
        ensures
            r == self.spec_epoch_fee(epoch),
    {
        if epoch >= self.newer_transfer_fee.epoch {
            self.newer_transfer_fee
        } else {
            self.older_transfer_fee
        }
    }
}

/// What a mint's fee logic reads from ledger state: the mint address,
/// the program owning the mint account, and the fee extension if the
/// mint carries one.
#[derive(Clone, Copy, Debug)]
pub struct MintFeeState {
    pub mint: Address,
    pub owner: Address,
    pub transfer_fee_config: Option<TransferFeeConfigState>,
}

/// The fee deducted from a transfer of `pre_fee_amount`: the rate
/// applied and rounded up, capped at the schedule's flat maximum.
pub open spec fn spec_fee(bps: int, maximum_fee: int, pre_fee_amount: int) -> int {
    if bps == 0 || pre_fee_amount == 0 {
        0
    } else {
        let raw = spec_ceil_div(pre_fee_amount * bps, MAX_FEE_BASIS_POINTS as int);
        if raw < maximum_fee {
            raw
        } else {
            maximum_fee
        }
    }
}

/// The smallest transfer amount that nets `post_fee_amount` after the
/// fee, or nothing where that amount would not fit the machine word.
pub open spec fn spec_pre_fee_amount(bps: int, maximum_fee: int, post_fee_amount: int) -> Option<
    int,
> {
    let one = MAX_FEE_BASIS_POINTS as int;
    if bps == 0 {
        Some(post_fee_amount)
    } else if bps == one || post_fee_amount == 0 {
        Some(0int)
    } else {
        let raw = spec_ceil_div(post_fee_amount * one, one - bps);
        if raw - post_fee_amount >= maximum_fee {
            if post_fee_amount + maximum_fee > u64::MAX as int {
                None
            } else {
                Some(post_fee_amount + maximum_fee)
            }
        } else {
            if raw > u64::MAX as int {
                None
            } else {
                Some(raw)
            }
        }
    }
}

/// The fee that, deducted from the smallest sufficient pre-fee transfer,
/// leaves exactly `post_fee_amount`.
pub open spec fn spec_inverse_fee(bps: int, maximum_fee: int, post_fee_amount: int) -> Option<
    int,
> {
    match spec_pre_fee_amount(bps, maximum_fee, post_fee_amount) {
        Some(pre) => Some(spec_fee(bps, maximum_fee, pre)),
        None => None,
    }
}

/// Relies on spl_token_2022's TransferFee::calculate_inverse_fee: the
/// fee on the smallest transfer netting the given amount, with None
/// where the implied transfer would overflow.
#[verifier::external_body]
fn spl_calculate_inverse_fee(bps: u16, maximum_fee: u64, post_fee_amount: u64) -> (r: Option<
    u64,
>)
    requires
        bps <= MAX_FEE_BASIS_POINTS,
    ensures
        r is Some <==> spec_inverse_fee(
            bps as int,
            maximum_fee as int,
            post_fee_amount as int,
        ) is Some,
        r matches Some(f) ==> spec_inverse_fee(
            bps as int,
            maximum_fee as int,
            post_fee_amount as int,
        ) == Some(f as int),
{
    let schedule = spl_token_2022::extension::transfer_fee::TransferFee {
        epoch: 0.into(),
        maximum_fee: maximum_fee.into(),
        transfer_fee_basis_points: bps.into(),
    };
    schedule.calculate_inverse_fee(post_fee_amount)
}

/// What the inverse-fee computation yields for a whole mint: zero for a
/// fee-exempt mint, the flat maximum at the sentinel rate, and the exact
/// inverse fee otherwise; nothing where the inverse overflows.
pub open spec fn spec_transfer_inverse_fee(
    config: Option<TransferFeeConfigState>,
    epoch: u64,
    post_fee_amount: u64,
) -> Option<int> {
    match config {
        None => Some(0int),
        Some(c) => {
            let f = c.spec_epoch_fee(epoch);
            if f.transfer_fee_basis_points == MAX_FEE_BASIS_POINTS {
                Some(f.maximum_fee as int)
            } else {
                spec_inverse_fee(
                    f.transfer_fee_basis_points as int,
                    f.maximum_fee as int,
                    post_fee_amount as int,
                )
            }
        },
    }
}

/// Calculate the fee a mint would deduct from the transfer that nets
/// `post_fee_amount`. A mint without the fee extension pays nothing; at
/// the sentinel rate the flat maximum applies; otherwise the exact
/// inverse of the forward fee formula is used, and an overflowing
/// inverse is a fee-calculation error.
pub fn get_transfer_inverse_fee(
    config: &Option<TransferFeeConfigState>,
    epoch: u64,
    post_fee_amount: u64,
) -> (r: Result<u64, PlanError>)
    requires
        config matches Some(c) ==> c.wf(),
    ensures
        r matches Ok(f) ==> spec_transfer_inverse_fee(*config, epoch, post_fee_amount) == Some(
            f as int,
        ),
        r is Err ==> r == Err::<u64, PlanError>(PlanError::FeeCalculationError)
            && spec_transfer_inverse_fee(*config, epoch, post_fee_amount) is None,
{
    match config {
        None => Ok(0),
        Some(c) => {
            let f = c.get_epoch_fee(epoch);
            if f.transfer_fee_basis_points == MAX_FEE_BASIS_POINTS {
                Ok(f.maximum_fee)
            } else {
                match spl_calculate_inverse_fee(
                    f.transfer_fee_basis_points,
                    f.maximum_fee,
                    post_fee_amount,
                ) {
                    Some(fee) => Ok(fee),
                    None => Err(PlanError::FeeCalculationError),
                }
            }
        },
    }
}

/// The fee information for one mint of a pool.
#[derive(Clone, Copy, Debug)]
pub struct TransferFeeInfo {
    pub mint: Address,
    pub owner: Address,
    pub transfer_fee: u64,
}

/// Compute the inverse transfer fee for both of a pool's mints at the
/// given epoch, for the two post-fee amounts the deposit requires.
pub fn get_pool_mints_inverse_fee(
    mint_0: &MintFeeState,
    mint_1: &MintFeeState,
    epoch: u64,
    post_fee_amount_0: u64,
    post_fee_amount_1: u64,
) -> (r: Result<(TransferFeeInfo, TransferFeeInfo), PlanError>)
    requires
        mint_0.transfer_fee_config matches Some(c) ==> c.wf(),
        mint_1.transfer_fee_config matches Some(c) ==> c.wf(),
    ensures
        r matches Ok(pair) ==> {
            &&& pair.0.mint == mint_0.mint
            &&& pair.0.owner == mint_0.owner
            &&& spec_transfer_inverse_fee(mint_0.transfer_fee_config, epoch, post_fee_amount_0)
                == Some(pair.0.transfer_fee as int)
            &&& pair.1.mint == mint_1.mint
            &&& pair.1.owner == mint_1.owner
            &&& spec_transfer_inverse_fee(mint_1.transfer_fee_config, epoch, post_fee_amount_1)
                == Some(pair.1.transfer_fee as int)
        },
        r is Err ==> r == Err::<(TransferFeeInfo, TransferFeeInfo), PlanError>(
            PlanError::FeeCalculationError,
        ),
        r is Err <==> spec_transfer_inverse_fee(
            mint_0.transfer_fee_config,
            epoch,
            post_fee_amount_0,
        ) is None || spec_transfer_inverse_fee(
            mint_1.transfer_fee_config,
            epoch,
            post_fee_amount_1,
        ) is None,
{
    let fee_0 = match get_transfer_inverse_fee(&mint_0.transfer_fee_config, epoch, post_fee_amount_0) {
        Ok(f) => f,
        Err(e) => {
            return Err(e);
        },
    };
    let fee_1 = match get_transfer_inverse_fee(&mint_1.transfer_fee_config, epoch, post_fee_amount_1) {
        Ok(f) => f,
        Err(e) => {
            return Err(e);
        },
    };
    Ok((
        TransferFeeInfo { mint: mint_0.mint, owner: mint_0.owner, transfer_fee: fee_0 },
        TransferFeeInfo { mint: mint_1.mint, owner: mint_1.owner, transfer_fee: fee_1 },
    ))
}

/// Fee inversion round-trip: where the rate divides the transfer amount
/// evenly and the flat ceiling is not reached, deducting the fee and
/// then inverting recovers exactly that fee. (With uneven division the
/// inverse may name a smaller transfer netting the same amount, so the
/// round trip holds only on this set of inputs.)
pub proof fn lemma_fee_inversion_round_trip(bps: int, maximum_fee: int, pre: int)
    requires
        0 <= bps < MAX_FEE_BASIS_POINTS as int,
        0 <= pre <= u64::MAX,
        (pre * bps) % (MAX_FEE_BASIS_POINTS as int) == 0,
        spec_fee(bps, maximum_fee, pre) < maximum_fee,
    ensures
        spec_inverse_fee(bps, maximum_fee, pre - spec_fee(bps, maximum_fee, pre)) == Some(
            spec_fee(bps, maximum_fee, pre),
        ),
{
    let one = MAX_FEE_BASIS_POINTS as int;
    if bps == 0 || pre == 0 {
        // The fee is zero and the inverse of the unchanged amount is zero.
        assert(spec_fee(bps, maximum_fee, pre) == 0);
        if bps != 0 {
            assert(spec_pre_fee_amount(bps, maximum_fee, pre) == Some(0int) || pre != 0);
        }
    } else {
        let x = pre * bps;
        lemma_fundamental_div_mod(x, one);
        let q = x / one;
        // Exact division: the ceiling equals the quotient.
        lemma_fundamental_div_mod_converse(x + one - 1, one, q, one - 1);
        assert(spec_ceil_div(x, one) == q);
        assert(x == one * q);
        let fee = spec_fee(bps, maximum_fee, pre);
        assert(fee == q);
        let post = pre - fee;
        // post * one == pre * (one - bps), so the inverse division is
        // exact as well.
        assert(post * one == (one - bps) * pre + 0) by (nonlinear_arith)
            requires
                post == pre - q,
                pre * bps == one * q,
        ;
        assert(q < pre) by (nonlinear_arith)
            requires
                pre * bps == one * q,
                0 < bps < one,
                pre > 0,
        ;
        if post == 0 {
            assert(false);
        }
        lemma_fundamental_div_mod_converse(post * one + (one - bps) - 1, one - bps, pre, one
            - bps - 1);
        assert(spec_ceil_div(post * one, one - bps) == pre);
        assert(spec_pre_fee_amount(bps, maximum_fee, post) == Some(pre));
    }
}

} // verus!
