//! How a match moves through its life, whichever operation is tried on it.

use crate::address::Address;
use crate::cancel::CancelGame;
use crate::create::CreateGame;
use crate::errors::{ErrorCode, Failure};
use crate::identity::Identity;
use crate::join::JoinGame;
use crate::settle::CompleteGame;
use crate::state::{GameAccount, GameStatus, PlatformState};
use vstd::prelude::*;

verus! {

/// A step that the engine can take brings a match to a later stage of its
/// life, never to an earlier one, and never away from its end.
pub proof fn lemma_steps_go_forward(before: GameStatus, after: GameStatus)
    requires
        before.leads_to(after),
    ensures
        before.stage() < after.stage(),
        !before.is_final(),
{
}

/// A match that is completed or cancelled stays as it is: joining, settling
/// and cancelling all fail on it, whoever asks and whatever the ledger holds.
pub proof fn lemma_ended_match_stays_ended(
    game: GameAccount,
    platform: PlatformState,
    caller: Identity,
    winner: Identity,
    balances: Map<Address, nat>,
)
    requires
        game.status.is_final(),
    ensures
        (JoinGame { game_account: game, player2: caller }).failure(balances) == Some(
            Failure::Rejected(ErrorCode::GameNotAvailable),
        ),
        (CompleteGame { game_account: game, platform_state: platform, authority: caller }).failure(
            balances,
            winner,
        ) == Some(Failure::Rejected(ErrorCode::GameNotInProgress)),
        (CancelGame { game_account: game, player1: caller }).failure(balances) == Some(
            Failure::Rejected(ErrorCode::CannotCancelInProgress),
        ),
{
}

/// What joins the match that `create` has created.
pub open spec fn joining(
    create: CreateGame,
    game_id: u64,
    stake_amount: u64,
    now: i64,
    opponent: Identity,
) -> JoinGame {
    JoinGame {
        game_account: create.created(game_id, stake_amount, now).game_account->Some_0,
        player2: opponent,
    }
}

/// What settles the match that `create` has created and `opponent` has
/// joined.
pub open spec fn settling(
    create: CreateGame,
    game_id: u64,
    stake_amount: u64,
    now: i64,
    opponent: Identity,
    platform: PlatformState,
    authority: Identity,
) -> CompleteGame {
    CompleteGame {
        game_account: joining(create, game_id, stake_amount, now, opponent).joined().game_account,
        platform_state: platform,
        authority,
    }
}

/// What cancels the match that `create` has created, for its depositor.
pub open spec fn cancelling(create: CreateGame, game_id: u64, stake_amount: u64, now: i64) -> CancelGame {
    CancelGame {
        game_account: create.created(game_id, stake_amount, now).game_account->Some_0,
        player1: create.player1,
    }
}

/// A match that is created, joined and settled hands out all that was paid
/// into it: it holds in the end what it held before it was created, and its
/// two players and the administrator hold together what they held before.
pub proof fn lemma_settled_match_keeps_nothing(
    create: CreateGame,
    balances: Map<Address, nat>,
    game_id: u64,
    stake_amount: u64,
    now: i64,
    opponent: Identity,
    platform: PlatformState,
    authority: Identity,
    winner: Identity,
)
    requires
        create.failure(balances, stake_amount) is None,
        joining(create, game_id, stake_amount, now, opponent).failure(
            create.staked(balances, game_id, stake_amount),
        ) is None,
        settling(create, game_id, stake_amount, now, opponent, platform, authority).failure(
            joining(create, game_id, stake_amount, now, opponent).staked(
                create.staked(balances, game_id, stake_amount),
            ),
            winner,
        ) is None,
    ensures
        ({
            let depositor = Address::Party(create.player1);
            let joiner = Address::Party(opponent);
            let admin = Address::Party(platform.admin);
            let join = joining(create, game_id, stake_amount, now, opponent);
            let settle = settling(create, game_id, stake_amount, now, opponent, platform, authority);
            let after = settle.paid_out(
                join.staked(create.staked(balances, game_id, stake_amount)),
                winner,
            );
            &&& after[Address::Match(game_id)] == balances[Address::Match(game_id)]
            &&& admin != depositor && admin != joiner ==> after[depositor] + after[joiner]
                + after[admin] == balances[depositor] + balances[joiner] + balances[admin]
            &&& admin == depositor || admin == joiner ==> after[depositor] + after[joiner]
                == balances[depositor] + balances[joiner]
        }),
{
    let join = joining(create, game_id, stake_amount, now, opponent);
    let settle = settling(create, game_id, stake_amount, now, opponent, platform, authority);
    let paid_in = join.staked(create.staked(balances, game_id, stake_amount));
    settle.lemma_settlement_hands_out_pool(paid_in, winner);
}

/// A match that is created and then cancelled by its depositor gives back
/// what was paid into it: the cancellation takes place, and every balance is
/// in the end what it was before the match was created.
pub proof fn lemma_cancelled_match_keeps_nothing(
    create: CreateGame,
    balances: Map<Address, nat>,
    game_id: u64,
    stake_amount: u64,
    now: i64,
)
    requires
        create.failure(balances, stake_amount) is None,
    ensures
        ({
            let cancel = cancelling(create, game_id, stake_amount, now);
            let paid_in = create.staked(balances, game_id, stake_amount);
            &&& cancel.failure(paid_in) is None
            &&& forall|at: Address| cancel.refunded(paid_in)[at] == balances[at]
        }),
{
}

} // verus!
