//! Settling a match: the pool goes to the winner, less the platform's fee.

use crate::address::Address;
use crate::errors::{ErrorCode, Failure, LedgerError};
use crate::fees::{settlement, settlement_of, Settlement};
use crate::identity::Identity;
use crate::ledger::{moved, Ledger};
use crate::state::{GameAccount, GameStatus, PlatformState};
use vstd::prelude::*;

verus! {

/// What a settlement works on.
#[derive(Clone, Copy, Debug, PartialEq, Eq)]
pub struct CompleteGame {
    /// The record of the match.
    pub game_account: GameAccount,
    /// The platform's record.
    pub platform_state: PlatformState,
    /// The resolver who signed. Any identity is accepted here: the engine
    /// holds no list of trusted resolvers to compare it with.
    pub authority: Identity,
}

impl CompleteGame {
    /// Why the settlement in favour of `winner` fails, if it does: the
    /// first of these that applies. The match is not in progress; the winner
    /// is neither of its players; the split of the pool, or one of the
    /// platform's totals, leaves the range of 64 bits; the match holds less
    /// than its pool.
    pub open spec fn failure(self, balances: Map<Address, nat>, winner: Identity) -> Option<
        Failure,
    > {
        let game = self.game_account;
        let platform = self.platform_state;
        if game.status != GameStatus::InProgress {
            Some(Failure::Rejected(ErrorCode::GameNotInProgress))
        } else if winner != game.player1 && winner != game.player2 {
            Some(Failure::Rejected(ErrorCode::InvalidWinner))
        } else {
            match settlement_of(game.stake_amount, platform.fee_percentage) {
                None => Some(Failure::Overflow),
                Some(split) => {
                    if platform.total_games + 1 > u64::MAX || platform.total_fees_collected
                        + split.fee > u64::MAX {
                        Some(Failure::Overflow)
                    } else if balances[Address::Match(game.game_id)] < split.pool {
                        Some(Failure::Ledger(LedgerError::InsufficientFunds))
                    } else {
                        None
                    }
                },
            }
        }
    }

    /// The amounts that the settlement hands out.
    pub open spec fn split(self) -> Settlement {
        settlement_of(self.game_account.stake_amount, self.platform_state.fee_percentage)->Some_0
    }

    /// The records after the settlement in favour of `winner`: the match is
    /// completed and names its winner, and the platform has counted one more
    /// match and its fee.
    pub open spec fn settled(self, winner: Identity) -> CompleteGame {
        CompleteGame {
            game_account: GameAccount {
                winner,
                status: GameStatus::Completed,
                ..self.game_account
            },
            platform_state: PlatformState {
                total_games: (self.platform_state.total_games + 1) as u64,
                total_fees_collected: (self.platform_state.total_fees_collected
                    + self.split().fee) as u64,
                ..self.platform_state
            },
            ..self
        }
    }

    /// The balances after the settlement in favour of `winner`: the payout
    /// has gone from the match to the winner, and then the fee from the match
    /// to the administrator.
    pub open spec fn paid_out(self, balances: Map<Address, nat>, winner: Identity) -> Map<
        Address,
        nat,
    > {
        let custody = Address::Match(self.game_account.game_id);
        moved(
            moved(balances, custody, Address::Party(winner), self.split().payout as nat),
            custody,
            Address::Party(self.platform_state.admin),
            self.split().fee as nat,
        )
    }

    /// A match that is not in progress cannot be settled, whoever is named
    /// as the winner.
    pub proof fn lemma_only_matches_in_progress_settle(
        self,
        balances: Map<Address, nat>,
        winner: Identity,
    )
        requires
            self.game_account.status != GameStatus::InProgress,
        ensures
            self.failure(balances, winner) == Some(Failure::Rejected(ErrorCode::GameNotInProgress)),
    {
    }

    /// A match in progress cannot be settled in favour of anybody but one of
    /// its two players.
    pub proof fn lemma_winner_must_have_played(self, balances: Map<Address, nat>, winner: Identity)
        requires
            self.game_account.status == GameStatus::InProgress,
            winner != self.game_account.player1,
            winner != self.game_account.player2,
        ensures
            self.failure(balances, winner) == Some(Failure::Rejected(ErrorCode::InvalidWinner)),
    {
    }

    /// Whether a settlement takes place does not depend on who resolves it.
    pub proof fn lemma_any_resolver_settles(
        self,
        balances: Map<Address, nat>,
        winner: Identity,
        resolver: Identity,
    )
        ensures
            (CompleteGame { authority: resolver, ..self }).failure(balances, winner)
                == self.failure(balances, winner),
    {
    }

    /// Every settlement that takes place hands out the whole pool: the
    /// payout and the fee add up to twice the stake, and the fee is the
    /// platform's percentage of twice the stake, rounded down.
    pub proof fn lemma_settlement_hands_out_pool(
        self,
        balances: Map<Address, nat>,
        winner: Identity,
    )
        requires
            self.failure(balances, winner) is None,
        ensures
            self.split().pool == self.game_account.stake_amount * 2,
            self.split().payout + self.split().fee == self.game_account.stake_amount * 2,
            self.split().fee == (self.game_account.stake_amount * 2
                * self.platform_state.fee_percentage) / 100,
    {
    }

    /// What a settlement that takes place leaves behind. The match was in
    /// progress and is completed, its winner is one of its players, and
    /// nothing else of it has changed. The platform has the same
    /// administrator and fee, and has counted one more match and the fee.
    /// Valid records stay valid.
    pub proof fn lemma_settled_records(self, balances: Map<Address, nat>, winner: Identity)
        requires
            self.failure(balances, winner) is None,
        ensures
            self.game_account.status.leads_to(self.settled(winner).game_account.status),
            self.settled(winner).game_account.status.is_final(),
            self.settled(winner).game_account.winner == winner,
            winner == self.game_account.player1 || winner == self.game_account.player2,
            self.settled(winner).game_account.game_id == self.game_account.game_id,
            self.settled(winner).game_account.player1 == self.game_account.player1,
            self.settled(winner).game_account.player2 == self.game_account.player2,
            self.settled(winner).game_account.stake_amount == self.game_account.stake_amount,
            self.settled(winner).game_account.created_at == self.game_account.created_at,
            self.settled(winner).platform_state.admin == self.platform_state.admin,
            self.settled(winner).platform_state.fee_percentage
                == self.platform_state.fee_percentage,
            self.settled(winner).platform_state.total_games == self.platform_state.total_games + 1,
            self.settled(winner).platform_state.total_fees_collected
                == self.platform_state.total_fees_collected + self.split().fee,
            self.game_account.wf() ==> self.settled(winner).game_account.wf(),
            self.platform_state.wf() ==> self.settled(winner).platform_state.wf(),
    {
    }

    /// Where the funds of a settlement that takes place have gone: the match
    /// holds its pool less, the winner holds the payout more and the
    /// administrator the fee more, or the whole pool more where they are one
    /// identity, and nothing else has moved.
    pub proof fn lemma_settlement_reaches_winner(
        self,
        balances: Map<Address, nat>,
        winner: Identity,
    )
        requires
            self.failure(balances, winner) is None,
        ensures
            ({
                let after = self.paid_out(balances, winner);
                let custody = Address::Match(self.game_account.game_id);
                let gainer = Address::Party(winner);
                let admin = Address::Party(self.platform_state.admin);
                &&& after[custody] == balances[custody] - self.split().pool
                &&& gainer != admin ==> after[gainer] == balances[gainer] + self.split().payout
                &&& gainer != admin ==> after[admin] == balances[admin] + self.split().fee
                &&& gainer == admin ==> after[gainer] == balances[gainer] + self.split().pool
                &&& forall|other: Address|
                    other != custody && other != gainer && other != admin ==> after[other]
                        == balances[other]
            }),
    {
    }
}

/// Settles a match that is in progress in favour of `winner`, who must be one
/// of its two players: the winner receives the pool less the fee, the
/// administrator the fee, and the platform counts the match and the fee.
pub fn complete_game(ledger: &mut Ledger, ctx: &mut CompleteGame, winner: Identity) -> (done:
    Result<(), Failure>)
    requires
        old(ledger).wf(),
    ensures
        final(ledger).wf(),
        final(ledger).supply() == old(ledger).supply(),
        match done {
            Ok(()) => {
                &&& old(ctx).failure(old(ledger)@, winner) is None
                &&& *final(ctx) == old(ctx).settled(winner)
                &&& final(ledger)@ == old(ctx).paid_out(old(ledger)@, winner)
            },
            Err(why) => {
                &&& old(ctx).failure(old(ledger)@, winner) == Some(why)
                &&& *final(ctx) == *old(ctx)
                &&& final(ledger)@ == old(ledger)@
            },
        },
{
    if ctx.game_account.status != GameStatus::InProgress {
        return Err(Failure::Rejected(ErrorCode::GameNotInProgress));
    }
    if winner != ctx.game_account.player1 && winner != ctx.game_account.player2 {
        return Err(Failure::Rejected(ErrorCode::InvalidWinner));
    }
    let split = match settlement(ctx.game_account.stake_amount, ctx.platform_state.fee_percentage) {
        Some(split) => split,
        None => {
            return Err(Failure::Overflow);
        },
    };
    let total_games = match ctx.platform_state.total_games.checked_add(1) {
        Some(total) => total,
        None => {
            return Err(Failure::Overflow);
        },
    };
    let total_fees = match ctx.platform_state.total_fees_collected.checked_add(split.fee) {
        Some(total) => total,
        None => {
            return Err(Failure::Overflow);
        },
    };
    let custody = Address::Match(ctx.game_account.game_id);
    if ledger.balance(&custody) < split.pool {
        return Err(Failure::Ledger(LedgerError::InsufficientFunds));
    }
    let paid = ledger.transfer(&custody, &Address::Party(winner), split.payout);
    let charged = ledger.transfer(
        &custody,
        &Address::Party(ctx.platform_state.admin),
        split.fee,
    );
    assert(paid is Ok && charged is Ok);
    ctx.game_account.winner = winner;
    ctx.game_account.status = GameStatus::Completed;
    ctx.platform_state.total_games = total_games;
    ctx.platform_state.total_fees_collected = total_fees;
    Ok(())
}

} // verus!
