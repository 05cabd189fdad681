//! Cancelling a match that nobody has joined.

use crate::address::Address;
use crate::errors::{ErrorCode, Failure, LedgerError};
use crate::identity::Identity;
use crate::ledger::{moved, Ledger};
use crate::state::{GameAccount, GameStatus};
use vstd::prelude::*;

verus! {

/// What a cancellation works on.
#[derive(Clone, Copy, Debug, PartialEq, Eq)]
pub struct CancelGame {
    /// The record of the match.
    pub game_account: GameAccount,
    /// The caller.
    pub player1: Identity,
}

impl CancelGame {
    /// Why the cancellation fails, if it does: the first of these that
    /// applies. The match does not wait for an opponent any more; the caller
    /// is not its depositor; the match holds less than the stake.
    pub open spec fn failure(self, balances: Map<Address, nat>) -> Option<Failure> {
        let game = self.game_account;
        if game.status != GameStatus::WaitingForPlayer {
            Some(Failure::Rejected(ErrorCode::CannotCancelInProgress))
        } else if game.player1 != self.player1 {
            Some(Failure::Rejected(ErrorCode::Unauthorized))
        } else if balances[Address::Match(game.game_id)] < game.stake_amount {
            Some(Failure::Ledger(LedgerError::InsufficientFunds))
        } else {
            None
        }
    }

    /// The records after the cancellation: the match is cancelled.
    pub open spec fn cancelled(self) -> CancelGame {
        CancelGame {
            game_account: GameAccount { status: GameStatus::Cancelled, ..self.game_account },
            ..self
        }
    }

    /// The balances after the cancellation: the stake has gone from the
    /// match back to the depositor.
    pub open spec fn refunded(self, balances: Map<Address, nat>) -> Map<Address, nat> {
        moved(
            balances,
            Address::Match(self.game_account.game_id),
            Address::Party(self.player1),
            self.game_account.stake_amount as nat,
        )
    }

    /// A match that somebody has joined, or that has ended, cannot be
    /// cancelled, whoever asks.
    pub proof fn lemma_only_waiting_matches_are_cancelled(self, balances: Map<Address, nat>)
        requires
            self.game_account.status != GameStatus::WaitingForPlayer,
        ensures
            self.failure(balances) == Some(
                Failure::Rejected(ErrorCode::CannotCancelInProgress),
            ),
    {
    }

    /// Nobody but its depositor can cancel a match that waits for an
    /// opponent.
    pub proof fn lemma_only_depositor_cancels(self, balances: Map<Address, nat>)
        requires
            self.game_account.status == GameStatus::WaitingForPlayer,
            self.player1 != self.game_account.player1,
        ensures
            self.failure(balances) == Some(Failure::Rejected(ErrorCode::Unauthorized)),
    {
    }

    /// What a cancellation that takes place leaves behind. The match waited
    /// and is cancelled, and nothing else of it has changed. A valid record
    /// stays valid.
    pub proof fn lemma_cancelled_record(self, balances: Map<Address, nat>)
        requires
            self.failure(balances) is None,
        ensures
            self.game_account.status.leads_to(self.cancelled().game_account.status),
            self.cancelled().game_account.status.is_final(),
            self.cancelled().game_account.game_id == self.game_account.game_id,
            self.cancelled().game_account.player1 == self.game_account.player1,
            self.cancelled().game_account.player2 == self.game_account.player2,
            self.cancelled().game_account.stake_amount == self.game_account.stake_amount,
            self.cancelled().game_account.winner == self.game_account.winner,
            self.cancelled().game_account.created_at == self.game_account.created_at,
            self.game_account.wf() ==> self.cancelled().game_account.wf(),
    {
    }

    /// Where the stake has gone after a cancellation: the match holds the
    /// stake less and the depositor exactly the stake more, and nothing else
    /// has moved.
    pub proof fn lemma_stake_returns_to_depositor(self, balances: Map<Address, nat>)
        requires
            self.failure(balances) is None,
        ensures
            ({
                let after = self.refunded(balances);
                let depositor = Address::Party(self.player1);
                let custody = Address::Match(self.game_account.game_id);
                let stake = self.game_account.stake_amount;
                &&& after[custody] == balances[custody] - stake
                &&& after[depositor] == balances[depositor] + stake
                &&& forall|other: Address|
                    other != custody && other != depositor ==> after[other] == balances[other]
            }),
    {
    }
}

/// Cancels a match that still waits for an opponent, for its depositor, who
/// must be the caller: the stake goes back to the depositor.
pub fn cancel_game(ledger: &mut Ledger, ctx: &mut CancelGame) -> (done: Result<(), Failure>)
    requires
        old(ledger).wf(),
    ensures
        final(ledger).wf(),
        final(ledger).supply() == old(ledger).supply(),
        match done {
            Ok(()) => {
                &&& old(ctx).failure(old(ledger)@) is None
                &&& *final(ctx) == old(ctx).cancelled()
                &&& final(ledger)@ == old(ctx).refunded(old(ledger)@)
            },
            Err(why) => {
                &&& old(ctx).failure(old(ledger)@) == Some(why)
                &&& *final(ctx) == *old(ctx)
                &&& final(ledger)@ == old(ledger)@
            },
        },
{
    if ctx.game_account.status != GameStatus::WaitingForPlayer {
        return Err(Failure::Rejected(ErrorCode::CannotCancelInProgress));
    }
    if ctx.game_account.player1 != ctx.player1 {
        return Err(Failure::Rejected(ErrorCode::Unauthorized));
    }
    let custody = Address::Match(ctx.game_account.game_id);
    let depositor = Address::Party(ctx.player1);
    match ledger.transfer(&custody, &depositor, ctx.game_account.stake_amount) {
        Ok(()) => {},
        Err(why) => {
            return Err(Failure::Ledger(why));
        },
    }
    ctx.game_account.status = GameStatus::Cancelled;
    Ok(())
}

} // verus!
