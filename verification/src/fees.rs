//! How the pool of a match is split between the winner and the platform.

use vstd::prelude::*;

verus! {

/// The least stake that a match can be created with.
pub const MIN_STAKE: u64 = 10_000_000;

/// The highest fee, in percent of the pool.
pub const MAX_FEE_PERCENTAGE: u8 = 100;

/// The amounts of one settlement.
#[derive(Clone, Copy, Debug, PartialEq, Eq, Structural)]
pub struct Settlement {
    /// Both stakes together.
    pub pool: u64,
    /// The platform's share.
    pub fee: u64,
    /// The winner's share.
    pub payout: u64,
}

/// The pool of a match: the stake of each of its two players.
pub open spec fn pool_of(stake: nat) -> nat {
    stake * 2
}

/// The platform's share of the pool: the given percentage of it, rounded down.
pub open spec fn fee_of(stake: nat, fee_percentage: nat) -> nat {
    (stake * 2 * fee_percentage) / 100
}

/// The winner's share of the pool: what the fee leaves of it.
pub open spec fn payout_of(stake: nat, fee_percentage: nat) -> int {
    pool_of(stake) - fee_of(stake, fee_percentage)
}

/// The split of a pool, where every step of it can be computed in 64 bits:
/// the pool, the pool times the percentage, and a fee within the pool.
pub open spec fn settlement_of(stake: u64, fee_percentage: u8) -> Option<Settlement> {
    if stake * 2 > u64::MAX || stake * 2 * fee_percentage > u64::MAX || fee_of(
        stake as nat,
        fee_percentage as nat,
    ) > pool_of(stake as nat) {
        None
    } else {
        Some(
            Settlement {
                pool: pool_of(stake as nat) as u64,
                fee: fee_of(stake as nat, fee_percentage as nat) as u64,
                payout: payout_of(stake as nat, fee_percentage as nat) as u64,
            },
        )
    }
}

/// Splits the pool of a match with the given stake. Gives nothing where a
/// step of the computation leaves the range of 64 bits.
pub fn settlement(stake: u64, fee_percentage: u8) -> (split: Option<Settlement>)
    ensures
        split == settlement_of(stake, fee_percentage),
{
    let pool = match stake.checked_mul(2) {
        Some(pool) => pool,
        None => {
            return None;
        },
    };
    let scaled = match pool.checked_mul(fee_percentage as u64) {
        Some(scaled) => scaled,
        None => {
            return None;
        },
    };
    let fee = scaled / 100;
    match pool.checked_sub(fee) {
        Some(payout) => Some(Settlement { pool, fee, payout }),
        None => None,
    }
}

/// A fee of at most 100 percent stays within the pool.
pub proof fn lemma_fee_within_pool(stake: nat, fee_percentage: nat)
    requires
        fee_percentage <= 100,
    ensures
        fee_of(stake, fee_percentage) <= pool_of(stake),
{
    let pool = stake * 2;
    assert(pool * fee_percentage <= pool * 100) by (nonlinear_arith)
        requires
            fee_percentage <= 100,
            pool >= 0,
    ;
    assert((pool * 100) / 100 == pool);
}

/// Every settlement hands out the whole pool, no more and no less: the payout
/// and the fee add up to twice the stake, and the fee is the given percentage
/// of twice the stake, rounded down.
pub proof fn lemma_settlement_splits_pool(stake: u64, fee_percentage: u8)
    requires
        settlement_of(stake, fee_percentage) is Some,
    ensures
        ({
            let split = settlement_of(stake, fee_percentage)->Some_0;
            &&& split.pool == stake * 2
            &&& split.payout + split.fee == stake * 2
            &&& split.fee == (stake * 2 * fee_percentage) / 100
        }),
{
}

/// With a fee of at most 100 percent the split can be computed as soon as
/// the pool times the percentage fits in 64 bits.
pub proof fn lemma_settlement_exists(stake: u64, fee_percentage: u8)
    requires
        fee_percentage <= 100,
        stake * 2 * fee_percentage <= u64::MAX,
        stake * 2 <= u64::MAX,
    ensures
        settlement_of(stake, fee_percentage) is Some,
{
    lemma_fee_within_pool(stake as nat, fee_percentage as nat);
}

} // verus!
