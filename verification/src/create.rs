//! Creating a match and paying its first stake.

use crate::address::Address;
use crate::errors::{ErrorCode, Failure, LedgerError};
use crate::fees::MIN_STAKE;
use crate::identity::Identity;
use crate::ledger::{moved, Ledger};
use crate::state::{GameAccount, GameStatus};
use vstd::prelude::*;

verus! {

/// What creating a match works on.
#[derive(Clone, Copy, Debug, PartialEq, Eq)]
pub struct CreateGame {
    /// The record of the match with the identifier to create, if there is
    /// one already.
    pub game_account: Option<GameAccount>,
    /// The caller, who becomes the depositor.
    pub player1: Identity,
}

impl CreateGame {
    /// Why creating a match with this stake fails, if it does: the first of
    /// these that applies. There is a match with the identifier already; the
    /// stake is zero; it is below the minimum; the caller holds less than
    /// the stake.
    pub open spec fn failure(self, balances: Map<Address, nat>, stake_amount: u64) -> Option<
        Failure,
    > {
        if self.game_account is Some {
            Some(Failure::AlreadyExists)
        } else if stake_amount == 0 {
            Some(Failure::Rejected(ErrorCode::InvalidStakeAmount))
        } else if stake_amount < MIN_STAKE {
            Some(Failure::Rejected(ErrorCode::StakeTooLow))
        } else if balances[Address::Party(self.player1)] < stake_amount {
            Some(Failure::Ledger(LedgerError::InsufficientFunds))
        } else {
            None
        }
    }

    /// The record of the match once it has been created: it belongs to the
    /// caller, waits for an opponent, and has no winner.
    pub open spec fn created(self, game_id: u64, stake_amount: u64, now: i64) -> CreateGame {
        CreateGame {
            game_account: Some(
                GameAccount {
                    game_id,
                    player1: self.player1,
                    player2: Identity::nobody(),
                    stake_amount,
                    status: GameStatus::WaitingForPlayer,
                    winner: Identity::nobody(),
                    created_at: now,
                },
            ),
            ..self
        }
    }

    /// The balances after the match has been created: the stake has gone
    /// from the caller to the match.
    pub open spec fn staked(self, balances: Map<Address, nat>, game_id: u64, stake_amount: u64) -> Map<
        Address,
        nat,
    > {
        moved(balances, Address::Party(self.player1), Address::Match(game_id), stake_amount as nat)
    }

    /// A stake above zero and below the minimum is too low for a new match,
    /// whatever the caller holds.
    pub proof fn lemma_low_stake_is_refused(self, balances: Map<Address, nat>, stake_amount: u64)
        requires
            self.game_account is None,
            0 < stake_amount < MIN_STAKE,
        ensures
            self.failure(balances, stake_amount) == Some(
                Failure::Rejected(ErrorCode::StakeTooLow),
            ),
    {
    }

    /// A stake of zero is no stake.
    pub proof fn lemma_zero_stake_is_refused(self, balances: Map<Address, nat>)
        requires
            self.game_account is None,
        ensures
            self.failure(balances, 0) == Some(Failure::Rejected(ErrorCode::InvalidStakeAmount)),
    {
    }

    /// A caller who holds the stake can create a new match with any stake
    /// from the minimum up, the minimum itself included.
    pub proof fn lemma_sufficient_stake_is_accepted(
        self,
        balances: Map<Address, nat>,
        stake_amount: u64,
    )
        requires
            self.game_account is None,
            stake_amount >= MIN_STAKE,
            balances[Address::Party(self.player1)] >= stake_amount,
        ensures
            self.failure(balances, stake_amount) is None,
    {
    }

    /// No second match can be created under the identifier of one that has
    /// been created, whatever its stake.
    pub proof fn lemma_match_is_created_once(
        self,
        balances: Map<Address, nat>,
        game_id: u64,
        stake_amount: u64,
        now: i64,
        later: Map<Address, nat>,
        again: u64,
    )
        requires
            self.failure(balances, stake_amount) is None,
        ensures
            self.created(game_id, stake_amount, now).failure(later, again) == Some(
                Failure::AlreadyExists,
            ),
    {
    }

    /// The record of a match that has just been created is valid, and holds
    /// what the match was created with.
    pub proof fn lemma_created_record(
        self,
        balances: Map<Address, nat>,
        game_id: u64,
        stake_amount: u64,
        now: i64,
    )
        requires
            self.failure(balances, stake_amount) is None,
        ensures
            self.created(game_id, stake_amount, now).game_account is Some,
            self.created(game_id, stake_amount, now).game_account->Some_0.wf(),
            self.created(game_id, stake_amount, now).game_account->Some_0.status
                == GameStatus::WaitingForPlayer,
            self.created(game_id, stake_amount, now).game_account->Some_0.game_id == game_id,
            self.created(game_id, stake_amount, now).game_account->Some_0.player1 == self.player1,
            self.created(game_id, stake_amount, now).game_account->Some_0.stake_amount
                == stake_amount,
    {
    }

    /// Where the stake has gone after a match has been created: the caller
    /// holds the stake less and the match exactly the stake more, and
    /// nothing else has moved.
    pub proof fn lemma_stake_reaches_match(
        self,
        balances: Map<Address, nat>,
        game_id: u64,
        stake_amount: u64,
    )
        requires
            self.failure(balances, stake_amount) is None,
        ensures
            ({
                let after = self.staked(balances, game_id, stake_amount);
                let caller = Address::Party(self.player1);
                let custody = Address::Match(game_id);
                &&& after[caller] == balances[caller] - stake_amount
                &&& after[custody] == balances[custody] + stake_amount
                &&& forall|other: Address|
                    other != custody && other != caller ==> after[other] == balances[other]
            }),
    {
    }
}

/// Creates the match with the given identifier for the caller, at the time
/// `now`: the caller pays the stake, which must be at least the minimum, into
/// the match, and the match waits for an opponent. One match can be created
/// under an identifier.
pub fn create_game(
    ledger: &mut Ledger,
    ctx: &mut CreateGame,
    game_id: u64,
    stake_amount: u64,
    now: i64,
) -> (done: Result<(), Failure>)
    requires
        old(ledger).wf(),
    ensures
        final(ledger).wf(),
        final(ledger).supply() == old(ledger).supply(),
        match done {
            Ok(()) => {
                &&& old(ctx).failure(old(ledger)@, stake_amount) is None
                &&& *final(ctx) == old(ctx).created(game_id, stake_amount, now)
                &&& final(ledger)@ == old(ctx).staked(old(ledger)@, game_id, stake_amount)
            },
            Err(why) => {
                &&& old(ctx).failure(old(ledger)@, stake_amount) == Some(why)
                &&& *final(ctx) == *old(ctx)
                &&& final(ledger)@ == old(ledger)@
            },
        },
{
    if ctx.game_account.is_some() {
        return Err(Failure::AlreadyExists);
    }
    if stake_amount == 0 {
        return Err(Failure::Rejected(ErrorCode::InvalidStakeAmount));
    }
    if stake_amount < MIN_STAKE {
        return Err(Failure::Rejected(ErrorCode::StakeTooLow));
    }
    let caller = Address::Party(ctx.player1);
    let custody = Address::Match(game_id);
    match ledger.transfer(&caller, &custody, stake_amount) {
        Ok(()) => {},
        Err(why) => {
            return Err(Failure::Ledger(why));
        },
    }
    ctx.game_account = Some(
        GameAccount {
            game_id,
            player1: ctx.player1,
            player2: Identity::unset(),
            stake_amount,
            status: GameStatus::WaitingForPlayer,
            winner: Identity::unset(),
            created_at: now,
        },
    );
    Ok(())
}

} // verus!
