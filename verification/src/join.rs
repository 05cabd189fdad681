//! Joining a match as its opponent.

use crate::address::Address;
use crate::errors::{ErrorCode, Failure, LedgerError};
use crate::identity::Identity;
use crate::ledger::{moved, Ledger};
use crate::state::{GameAccount, GameStatus};
use vstd::prelude::*;

verus! {

/// What joining a match works on.
#[derive(Clone, Copy, Debug, PartialEq, Eq)]
pub struct JoinGame {
    /// The record of the match.
    pub game_account: GameAccount,
    /// The caller, who wants to become the opponent.
    pub player2: Identity,
}

impl JoinGame {
    /// Why joining fails, if it does: the first of these that applies. The
    /// match does not wait for an opponent; the caller is its depositor; the
    /// caller holds less than the stake.
    pub open spec fn failure(self, balances: Map<Address, nat>) -> Option<Failure> {
        let game = self.game_account;
        if game.status != GameStatus::WaitingForPlayer {
            Some(Failure::Rejected(ErrorCode::GameNotAvailable))
        } else if game.player1 == self.player2 {
            Some(Failure::Rejected(ErrorCode::CannotPlaySelf))
        } else if balances[Address::Party(self.player2)] < game.stake_amount {
            Some(Failure::Ledger(LedgerError::InsufficientFunds))
        } else {
            None
        }
    }

    /// The records after the caller has joined: the caller is the opponent
    /// and the match is in progress.
    pub open spec fn joined(self) -> JoinGame {
        JoinGame {
            game_account: GameAccount {
                player2: self.player2,
                status: GameStatus::InProgress,
                ..self.game_account
            },
            ..self
        }
    }

    /// The balances after the caller has joined: the stake has gone from the
    /// caller to the match.
    pub open spec fn staked(self, balances: Map<Address, nat>) -> Map<Address, nat> {
        moved(
            balances,
            Address::Party(self.player2),
            Address::Match(self.game_account.game_id),
            self.game_account.stake_amount as nat,
        )
    }

    /// Nobody can join a match that does not wait for an opponent.
    pub proof fn lemma_only_waiting_matches_are_joined(self, balances: Map<Address, nat>)
        requires
            self.game_account.status != GameStatus::WaitingForPlayer,
        ensures
            self.failure(balances) == Some(Failure::Rejected(ErrorCode::GameNotAvailable)),
    {
    }

    /// The depositor of a match that waits for an opponent cannot join it.
    pub proof fn lemma_depositor_cannot_join(self, balances: Map<Address, nat>)
        requires
            self.game_account.status == GameStatus::WaitingForPlayer,
            self.player2 == self.game_account.player1,
        ensures
            self.failure(balances) == Some(Failure::Rejected(ErrorCode::CannotPlaySelf)),
    {
    }

    /// What joining, where it takes place, leaves behind. The match waited
    /// and is in progress, its opponent is the caller and not its depositor,
    /// and nothing else of it has changed. A valid record stays valid.
    pub proof fn lemma_joined_record(self, balances: Map<Address, nat>)
        requires
            self.failure(balances) is None,
        ensures
            self.game_account.status.leads_to(self.joined().game_account.status),
            self.joined().game_account.status == GameStatus::InProgress,
            self.joined().game_account.player2 == self.player2,
            self.joined().game_account.player1 != self.joined().game_account.player2,
            self.joined().game_account.game_id == self.game_account.game_id,
            self.joined().game_account.player1 == self.game_account.player1,
            self.joined().game_account.stake_amount == self.game_account.stake_amount,
            self.joined().game_account.winner == self.game_account.winner,
            self.joined().game_account.created_at == self.game_account.created_at,
            self.game_account.wf() ==> self.joined().game_account.wf(),
    {
    }

    /// Where the stake has gone after joining: the caller holds the stake
    /// less and the match the stake more, and nothing else has moved.
    pub proof fn lemma_stake_reaches_match(self, balances: Map<Address, nat>)
        requires
            self.failure(balances) is None,
        ensures
            ({
                let after = self.staked(balances);
                let caller = Address::Party(self.player2);
                let custody = Address::Match(self.game_account.game_id);
                let stake = self.game_account.stake_amount;
                &&& after[caller] == balances[caller] - stake
                &&& after[custody] == balances[custody] + stake
                &&& forall|other: Address|
                    other != custody && other != caller ==> after[other] == balances[other]
            }),
    {
    }
}

/// Lets the caller join a match that waits for an opponent: the caller pays
/// the stake into the match and becomes its opponent, and the match is in
/// progress. Nobody can join their own match.
pub fn join_game(ledger: &mut Ledger, ctx: &mut JoinGame) -> (done: Result<(), Failure>)
    requires
        old(ledger).wf(),
    ensures
        final(ledger).wf(),
        final(ledger).supply() == old(ledger).supply(),
        match done {
            Ok(()) => {
                &&& old(ctx).failure(old(ledger)@) is None
                &&& *final(ctx) == old(ctx).joined()
                &&& final(ledger)@ == old(ctx).staked(old(ledger)@)
            },
            Err(why) => {
                &&& old(ctx).failure(old(ledger)@) == Some(why)
                &&& *final(ctx) == *old(ctx)
                &&& final(ledger)@ == old(ledger)@
            },
        },
{
    if ctx.game_account.status != GameStatus::WaitingForPlayer {
        return Err(Failure::Rejected(ErrorCode::GameNotAvailable));
    }
    if ctx.game_account.player1 == ctx.player2 {
        return Err(Failure::Rejected(ErrorCode::CannotPlaySelf));
    }
    let caller = Address::Party(ctx.player2);
    let custody = Address::Match(ctx.game_account.game_id);
    match ledger.transfer(&caller, &custody, ctx.game_account.stake_amount) {
        Ok(()) => {},
        Err(why) => {
            return Err(Failure::Ledger(why));
        },
    }
    ctx.game_account.player2 = ctx.player2;
    ctx.game_account.status = GameStatus::InProgress;
    Ok(())
}

} // verus!
