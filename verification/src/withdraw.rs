//! Withdrawing collected fees.

use crate::address::Address;
use crate::errors::{ErrorCode, Failure};
use crate::identity::Identity;
use crate::ledger::{moved, Ledger};
use crate::state::PlatformState;
use vstd::prelude::*;

verus! {

/// What a withdrawal of fees works on.
#[derive(Clone, Copy, Debug, PartialEq, Eq)]
pub struct WithdrawFees {
    /// The platform's record.
    pub platform_state: PlatformState,
    /// The caller.
    pub admin: Identity,
}

impl WithdrawFees {
    /// Why withdrawing `amount` fails, if it does: the first of these that
    /// applies. The caller is not the administrator; the amount is more than
    /// all fees ever collected; it is more than the platform's record holds.
    pub open spec fn failure(self, balances: Map<Address, nat>, amount: u64) -> Option<Failure> {
        if self.admin != self.platform_state.admin {
            Some(Failure::Rejected(ErrorCode::Unauthorized))
        } else if amount > self.platform_state.total_fees_collected {
            Some(Failure::Rejected(ErrorCode::InsufficientFees))
        } else if balances[Address::Platform] < amount {
            Some(Failure::Rejected(ErrorCode::InsufficientFees))
        } else {
            None
        }
    }

    /// The balances after the withdrawal: the amount has gone from the
    /// platform's record to the administrator.
    pub open spec fn withdrawn(self, balances: Map<Address, nat>, amount: u64) -> Map<
        Address,
        nat,
    > {
        moved(balances, Address::Platform, Address::Party(self.admin), amount as nat)
    }

    /// Nobody but the administrator can withdraw.
    pub proof fn lemma_only_admin_withdraws(self, balances: Map<Address, nat>, amount: u64)
        requires
            self.admin != self.platform_state.admin,
        ensures
            self.failure(balances, amount) == Some(Failure::Rejected(ErrorCode::Unauthorized)),
    {
    }

    /// The administrator cannot withdraw more than the fees ever collected,
    /// however much the platform's record holds.
    pub proof fn lemma_withdrawal_within_fees_collected(
        self,
        balances: Map<Address, nat>,
        amount: u64,
    )
        requires
            self.admin == self.platform_state.admin,
            amount > self.platform_state.total_fees_collected,
        ensures
            self.failure(balances, amount) == Some(
                Failure::Rejected(ErrorCode::InsufficientFees),
            ),
    {
    }

    /// The administrator cannot withdraw more than the platform's record
    /// holds.
    pub proof fn lemma_withdrawal_within_balance(self, balances: Map<Address, nat>, amount: u64)
        requires
            self.admin == self.platform_state.admin,
            amount > balances[Address::Platform],
        ensures
            self.failure(balances, amount) == Some(
                Failure::Rejected(ErrorCode::InsufficientFees),
            ),
    {
    }

    /// Where the funds of a withdrawal that takes place have gone: the
    /// platform's record holds the amount less and the administrator the
    /// amount more, and nothing else has moved.
    pub proof fn lemma_withdrawal_reaches_admin(self, balances: Map<Address, nat>, amount: u64)
        requires
            self.failure(balances, amount) is None,
        ensures
            ({
                let after = self.withdrawn(balances, amount);
                let admin = Address::Party(self.admin);
                &&& after[Address::Platform] == balances[Address::Platform] - amount
                &&& after[admin] == balances[admin] + amount
                &&& forall|other: Address|
                    other != Address::Platform && other != admin ==> after[other]
                        == balances[other]
            }),
    {
    }
}

/// Pays `amount` out of the platform's record to the administrator, who must
/// be the caller. The amount may be no more than the fees ever collected and
/// no more than the record holds. The total of fees collected stays as it
/// is: it counts what was ever collected, not what is left.
pub fn withdraw_fees(ledger: &mut Ledger, ctx: &WithdrawFees, amount: u64) -> (done: Result<
    (),
    Failure,
>)
    requires
        old(ledger).wf(),
    ensures
        final(ledger).wf(),
        final(ledger).supply() == old(ledger).supply(),
        match done {
            Ok(()) => {
                &&& ctx.failure(old(ledger)@, amount) is None
                &&& final(ledger)@ == ctx.withdrawn(old(ledger)@, amount)
            },
            Err(why) => {
                &&& ctx.failure(old(ledger)@, amount) == Some(why)
                &&& final(ledger)@ == old(ledger)@
            },
        },
{
    if ctx.admin != ctx.platform_state.admin {
        return Err(Failure::Rejected(ErrorCode::Unauthorized));
    }
    if amount > ctx.platform_state.total_fees_collected {
        return Err(Failure::Rejected(ErrorCode::InsufficientFees));
    }
    let treasury = Address::Platform;
    if ledger.balance(&treasury) < amount {
        return Err(Failure::Rejected(ErrorCode::InsufficientFees));
    }
    let paid = ledger.transfer(&treasury, &Address::Party(ctx.admin), amount);
    assert(paid is Ok);
    Ok(())
}

} // verus!
