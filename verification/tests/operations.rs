use escrow_fee::{
    cancel_game, complete_game, create_game, initialize, join_game, withdraw_fees, Address,
    CancelGame, CompleteGame, CreateGame, ErrorCode, Failure, GameAccount, GameStatus, Identity,
    Initialize, JoinGame, Ledger, LedgerError, PlatformState, WithdrawFees, MIN_STAKE,
};

fn id(tag: u8) -> Identity {
    Identity::new([tag; 32])
}

fn wallet(tag: u8) -> Address {
    Address::Party(id(tag))
}

/// The custody of the match that `game` makes.
const CUSTODY: Address = Address::Match(11);

fn ledger_with(holdings: &[(Address, u64)]) -> Ledger {
    let mut ledger = Ledger::new();
    for (at, amount) in holdings {
        assert_eq!(ledger.deposit(at, *amount), Ok(()));
    }
    ledger
}

fn game(status: GameStatus, stake_amount: u64) -> GameAccount {
    let waiting = status == GameStatus::WaitingForPlayer || status == GameStatus::Cancelled;
    GameAccount {
        game_id: 11,
        player1: id(1),
        player2: if waiting { Identity::unset() } else { id(2) },
        stake_amount,
        status,
        winner: if status == GameStatus::Completed { id(1) } else { Identity::unset() },
        created_at: 42,
    }
}

fn config(fee_percentage: u8) -> PlatformState {
    PlatformState { admin: id(3), fee_percentage, total_games: 0, total_fees_collected: 0 }
}

#[test]
fn initialize_accepts_every_percentage_up_to_100() {
    let mut fee: u8 = 0;
    loop {
        let mut ctx = Initialize { platform_state: None, admin: id(3) };
        let done = initialize(&mut ctx, fee);
        if fee <= 100 {
            assert_eq!(done, Ok(()));
            assert_eq!(
                ctx.platform_state,
                Some(PlatformState {
                    admin: id(3),
                    fee_percentage: fee,
                    total_games: 0,
                    total_fees_collected: 0
                })
            );
        } else {
            assert_eq!(done, Err(Failure::Rejected(ErrorCode::InvalidFeePercentage)));
            assert_eq!(ctx.platform_state, None);
        }
        assert_eq!(ctx.admin, id(3));
        if fee == 255 {
            break;
        }
        fee += 1;
    }
}

#[test]
fn initialize_leaves_an_existing_record_as_it_is() {
    let existing =
        PlatformState { admin: id(8), fee_percentage: 77, total_games: 9, total_fees_collected: 9 };
    let mut ctx = Initialize { platform_state: Some(existing), admin: id(3) };
    assert_eq!(initialize(&mut ctx, 100), Err(Failure::AlreadyExists));
    assert_eq!(ctx.platform_state, Some(existing));
    assert_eq!(ctx.admin, id(3));
}

#[test]
fn create_rejects_a_stake_of_zero() {
    let mut ledger = ledger_with(&[(wallet(1), 100_000_000)]);
    let mut ctx = CreateGame { game_account: None, player1: id(1) };
    assert_eq!(
        create_game(&mut ledger, &mut ctx, 1, 0, 0),
        Err(Failure::Rejected(ErrorCode::InvalidStakeAmount))
    );
    assert_eq!(ctx.game_account, None);
    assert_eq!(ledger.balance(&wallet(1)), 100_000_000);
}

#[test]
fn create_rejects_a_stake_below_the_minimum() {
    let mut ledger = ledger_with(&[(wallet(1), 100_000_000)]);
    let mut ctx = CreateGame { game_account: None, player1: id(1) };
    assert_eq!(
        create_game(&mut ledger, &mut ctx, 1, 9_999_999, 0),
        Err(Failure::Rejected(ErrorCode::StakeTooLow))
    );
    assert_eq!(
        create_game(&mut ledger, &mut ctx, 1, 1, 0),
        Err(Failure::Rejected(ErrorCode::StakeTooLow))
    );
    assert_eq!(ctx.game_account, None);
    assert_eq!(ledger.balance(&wallet(1)), 100_000_000);
    assert_eq!(ledger.balance(&Address::Match(1)), 0);
}

#[test]
fn create_accepts_the_minimum_and_pays_it_into_the_match() {
    assert_eq!(MIN_STAKE, 10_000_000);
    let mut ledger = ledger_with(&[(wallet(1), 100_000_000), (Address::Match(8), 1_234)]);
    let mut ctx = CreateGame { game_account: None, player1: id(1) };
    assert_eq!(create_game(&mut ledger, &mut ctx, 8, MIN_STAKE, -3), Ok(()));
    assert_eq!(ledger.balance(&Address::Match(8)), 1_234 + 10_000_000);
    assert_eq!(ledger.balance(&wallet(1)), 90_000_000);
    assert_eq!(
        ctx.game_account,
        Some(GameAccount {
            game_id: 8,
            player1: id(1),
            player2: Identity::unset(),
            stake_amount: 10_000_000,
            status: GameStatus::WaitingForPlayer,
            winner: Identity::unset(),
            created_at: -3,
        })
    );
}

#[test]
fn create_fails_where_the_depositor_cannot_pay() {
    let mut ledger = ledger_with(&[(wallet(1), 9_999_999)]);
    let mut ctx = CreateGame { game_account: None, player1: id(1) };
    assert_eq!(
        create_game(&mut ledger, &mut ctx, 1, 10_000_000, 0),
        Err(Failure::Ledger(LedgerError::InsufficientFunds))
    );
    assert_eq!(ctx.game_account, None);
    assert_eq!(ledger.balance(&wallet(1)), 9_999_999);
    assert_eq!(ledger.balance(&Address::Match(1)), 0);
}

#[test]
fn join_by_the_depositor_is_rejected() {
    let mut ledger = ledger_with(&[(wallet(1), 100_000_000), (CUSTODY, 10_000_000)]);
    let open = game(GameStatus::WaitingForPlayer, 10_000_000);
    let mut ctx = JoinGame { game_account: open, player2: id(1) };
    assert_eq!(join_game(&mut ledger, &mut ctx), Err(Failure::Rejected(ErrorCode::CannotPlaySelf)));
    assert_eq!(ctx.game_account, open);
    assert_eq!(ledger.balance(&wallet(1)), 100_000_000);
    assert_eq!(ledger.balance(&CUSTODY), 10_000_000);
}

#[test]
fn join_is_rejected_unless_the_match_waits() {
    for status in [GameStatus::InProgress, GameStatus::Completed, GameStatus::Cancelled] {
        let mut ledger = ledger_with(&[(wallet(5), 100_000_000)]);
        let record = game(status, 10_000_000);
        let mut ctx = JoinGame { game_account: record, player2: id(5) };
        assert_eq!(
            join_game(&mut ledger, &mut ctx),
            Err(Failure::Rejected(ErrorCode::GameNotAvailable))
        );
        assert_eq!(ctx.game_account, record);
        assert_eq!(ledger.balance(&wallet(5)), 100_000_000);
    }
}

#[test]
fn join_on_a_match_in_progress_by_its_depositor_is_not_available() {
    let mut ledger = ledger_with(&[(wallet(1), 100_000_000)]);
    let record = game(GameStatus::InProgress, 10_000_000);
    let mut ctx = JoinGame { game_account: record, player2: id(1) };
    assert_eq!(join_game(&mut ledger, &mut ctx), Err(Failure::Rejected(ErrorCode::GameNotAvailable)));
}

#[test]
fn join_fails_where_the_opponent_cannot_pay() {
    let mut ledger = ledger_with(&[(wallet(2), 10_000_000), (CUSTODY, 20_000_000)]);
    let open = game(GameStatus::WaitingForPlayer, 20_000_000);
    let mut ctx = JoinGame { game_account: open, player2: id(2) };
    assert_eq!(
        join_game(&mut ledger, &mut ctx),
        Err(Failure::Ledger(LedgerError::InsufficientFunds))
    );
    assert_eq!(ctx.game_account, open);
    assert_eq!(ledger.balance(&wallet(2)), 10_000_000);
    assert_eq!(ledger.balance(&CUSTODY), 20_000_000);
}

#[test]
fn join_moves_the_stake_and_starts_the_match() {
    let mut ledger = ledger_with(&[(wallet(2), 25_000_000), (CUSTODY, 20_000_000)]);
    let open = game(GameStatus::WaitingForPlayer, 20_000_000);
    let mut ctx = JoinGame { game_account: open, player2: id(2) };
    assert_eq!(join_game(&mut ledger, &mut ctx), Ok(()));
    assert_eq!(
        ctx.game_account,
        GameAccount { player2: id(2), status: GameStatus::InProgress, ..open }
    );
    assert_eq!(ledger.balance(&wallet(2)), 5_000_000);
    assert_eq!(ledger.balance(&CUSTODY), 40_000_000);
}

#[test]
fn settle_rejects_a_winner_who_did_not_play() {
    let mut ledger = ledger_with(&[(CUSTODY, 20_000_000)]);
    let running = game(GameStatus::InProgress, 10_000_000);
    let mut ctx = CompleteGame {
        game_account: running,
        platform_state: config(5),
        authority: id(9),
    };
    let before = ctx;
    assert_eq!(
        complete_game(&mut ledger, &mut ctx, id(7)),
        Err(Failure::Rejected(ErrorCode::InvalidWinner))
    );
    assert_eq!(
        complete_game(&mut ledger, &mut ctx, Identity::unset()),
        Err(Failure::Rejected(ErrorCode::InvalidWinner))
    );
    assert_eq!(ctx, before);
    assert_eq!(ledger.balance(&CUSTODY), 20_000_000);
    assert_eq!(ledger.balance(&wallet(7)), 0);
}

#[test]
fn settle_is_rejected_unless_the_match_is_in_progress() {
    for status in [GameStatus::WaitingForPlayer, GameStatus::Completed, GameStatus::Cancelled] {
        let mut ledger = ledger_with(&[(CUSTODY, 20_000_000)]);
        let mut ctx = CompleteGame {
            game_account: game(status, 10_000_000),
            platform_state: config(5),
            authority: id(9),
        };
        let before = ctx;
        assert_eq!(
            complete_game(&mut ledger, &mut ctx, id(1)),
            Err(Failure::Rejected(ErrorCode::GameNotInProgress))
        );
        assert_eq!(ctx, before);
        assert_eq!(ledger.balance(&CUSTODY), 20_000_000);
    }
}

#[test]
fn settle_accepts_any_resolver() {
    for resolver in [id(1), id(2), id(3), id(200), Identity::unset()] {
        let mut ledger = ledger_with(&[(CUSTODY, 20_000_000)]);
        let mut ctx = CompleteGame {
            game_account: game(GameStatus::InProgress, 10_000_000),
            platform_state: config(5),
            authority: resolver,
        };
        assert_eq!(complete_game(&mut ledger, &mut ctx, id(2)), Ok(()));
        assert_eq!(ctx.authority, resolver);
        assert_eq!(ledger.balance(&wallet(2)), 19_000_000);
    }
}

#[test]
fn settle_pays_both_shares_to_a_winner_who_is_the_administrator() {
    let mut ledger = ledger_with(&[(CUSTODY, 20_000_000), (wallet(1), 7)]);
    let mut ctx = CompleteGame {
        game_account: game(GameStatus::InProgress, 10_000_000),
        platform_state: PlatformState { admin: id(1), ..config(5) },
        authority: id(9),
    };
    assert_eq!(complete_game(&mut ledger, &mut ctx, id(1)), Ok(()));
    assert_eq!(ledger.balance(&wallet(1)), 20_000_007);
    assert_eq!(ledger.balance(&CUSTODY), 0);
    assert_eq!(ctx.platform_state.total_fees_collected, 1_000_000);
}

#[test]
fn settle_counts_matches_and_fees() {
    let mut ledger = ledger_with(&[(CUSTODY, 60_000_000)]);
    let mut state =
        PlatformState { admin: id(3), fee_percentage: 7, total_games: 41, total_fees_collected: 500 };
    for round in 0..3u64 {
        let mut ctx = CompleteGame {
            game_account: game(GameStatus::InProgress, 10_000_000),
            platform_state: state,
            authority: id(9),
        };
        assert_eq!(complete_game(&mut ledger, &mut ctx, id(2)), Ok(()));
        state = ctx.platform_state;
        assert_eq!(state.total_games, 42 + round);
        assert_eq!(state.total_fees_collected, 500 + 1_400_000 * (round + 1));
        assert_eq!(state.fee_percentage, 7);
        assert_eq!(state.admin, id(3));
    }
    assert_eq!(ledger.balance(&wallet(2)), 3 * 18_600_000);
    assert_eq!(ledger.balance(&wallet(3)), 3 * 1_400_000);
    assert_eq!(ledger.balance(&CUSTODY), 0);
}

#[test]
fn settle_fails_where_the_match_holds_less_than_its_pool() {
    let mut ledger = ledger_with(&[(CUSTODY, 19_999_999)]);
    let mut ctx = CompleteGame {
        game_account: game(GameStatus::InProgress, 10_000_000),
        platform_state: config(5),
        authority: id(9),
    };
    let before = ctx;
    assert_eq!(
        complete_game(&mut ledger, &mut ctx, id(1)),
        Err(Failure::Ledger(LedgerError::InsufficientFunds))
    );
    assert_eq!(ctx, before);
    assert_eq!(ledger.balance(&CUSTODY), 19_999_999);
    assert_eq!(ledger.balance(&wallet(1)), 0);
    assert_eq!(ledger.balance(&wallet(3)), 0);
}

#[test]
fn settle_fails_where_the_pool_leaves_64_bits() {
    let mut ledger = ledger_with(&[(CUSTODY, u64::MAX)]);
    let mut ctx = CompleteGame {
        game_account: game(GameStatus::InProgress, u64::MAX / 2 + 1),
        platform_state: config(0),
        authority: id(9),
    };
    let before = ctx;
    assert_eq!(complete_game(&mut ledger, &mut ctx, id(1)), Err(Failure::Overflow));
    assert_eq!(ctx, before);
    assert_eq!(ledger.balance(&CUSTODY), u64::MAX);
}

#[test]
fn settle_fails_where_the_scaled_pool_leaves_64_bits() {
    let mut ledger = ledger_with(&[(CUSTODY, u64::MAX)]);
    let mut ctx = CompleteGame {
        game_account: game(GameStatus::InProgress, u64::MAX / 4),
        platform_state: config(5),
        authority: id(9),
    };
    assert_eq!(complete_game(&mut ledger, &mut ctx, id(1)), Err(Failure::Overflow));
    ctx.platform_state.fee_percentage = 1;
    assert_eq!(complete_game(&mut ledger, &mut ctx, id(1)), Ok(()));
    let pool: u64 = (u64::MAX / 4) * 2;
    assert_eq!(ledger.balance(&wallet(3)), pool / 100);
    assert_eq!(ledger.balance(&wallet(1)), pool - pool / 100);
}

#[test]
fn settle_fails_where_a_total_leaves_64_bits() {
    let mut ledger = ledger_with(&[(CUSTODY, 20_000_000)]);
    let mut ctx = CompleteGame {
        game_account: game(GameStatus::InProgress, 10_000_000),
        platform_state: PlatformState { total_games: u64::MAX, ..config(5) },
        authority: id(9),
    };
    assert_eq!(complete_game(&mut ledger, &mut ctx, id(1)), Err(Failure::Overflow));
    ctx.platform_state = PlatformState { total_fees_collected: u64::MAX - 999_999, ..config(5) };
    let before = ctx;
    assert_eq!(complete_game(&mut ledger, &mut ctx, id(1)), Err(Failure::Overflow));
    assert_eq!(ctx, before);
    assert_eq!(ledger.balance(&CUSTODY), 20_000_000);
    ctx.platform_state.total_fees_collected = u64::MAX - 1_000_000;
    assert_eq!(complete_game(&mut ledger, &mut ctx, id(1)), Ok(()));
    assert_eq!(ctx.platform_state.total_fees_collected, u64::MAX);
}

#[test]
fn settle_fails_where_the_fee_is_more_than_the_pool() {
    let mut ledger = ledger_with(&[(CUSTODY, 20_000_000)]);
    let mut ctx = CompleteGame {
        game_account: game(GameStatus::InProgress, 10_000_000),
        platform_state: config(101),
        authority: id(9),
    };
    assert_eq!(complete_game(&mut ledger, &mut ctx, id(1)), Err(Failure::Overflow));
    assert_eq!(ledger.balance(&CUSTODY), 20_000_000);
}

#[test]
fn settle_with_full_fee_leaves_the_winner_nothing() {
    let mut ledger = ledger_with(&[(CUSTODY, 20_000_000)]);
    let mut ctx = CompleteGame {
        game_account: game(GameStatus::InProgress, 10_000_000),
        platform_state: config(100),
        authority: id(9),
    };
    assert_eq!(complete_game(&mut ledger, &mut ctx, id(1)), Ok(()));
    assert_eq!(ledger.balance(&wallet(1)), 0);
    assert_eq!(ledger.balance(&wallet(3)), 20_000_000);
}

#[test]
fn cancel_is_rejected_once_the_match_is_in_progress() {
    for status in [GameStatus::InProgress, GameStatus::Completed, GameStatus::Cancelled] {
        let mut ledger = ledger_with(&[(CUSTODY, 20_000_000)]);
        let record = game(status, 10_000_000);
        let mut ctx = CancelGame { game_account: record, player1: id(1) };
        assert_eq!(
            cancel_game(&mut ledger, &mut ctx),
            Err(Failure::Rejected(ErrorCode::CannotCancelInProgress))
        );
        assert_eq!(ctx.game_account, record);
        assert_eq!(ledger.balance(&CUSTODY), 20_000_000);
        assert_eq!(ledger.balance(&wallet(1)), 0);
    }
}

#[test]
fn cancel_by_anybody_but_the_depositor_is_rejected() {
    for caller in [id(2), id(3), id(4), Identity::unset()] {
        let mut ledger = ledger_with(&[(CUSTODY, 10_000_000)]);
        let open = game(GameStatus::WaitingForPlayer, 10_000_000);
        let mut ctx = CancelGame { game_account: open, player1: caller };
        assert_eq!(
            cancel_game(&mut ledger, &mut ctx),
            Err(Failure::Rejected(ErrorCode::Unauthorized))
        );
        assert_eq!(ctx.game_account, open);
        assert_eq!(ledger.balance(&CUSTODY), 10_000_000);
        assert_eq!(ledger.balance(&Address::Party(caller)), 0);
    }
}

#[test]
fn cancel_fails_where_the_match_holds_less_than_the_stake() {
    let mut ledger = ledger_with(&[(CUSTODY, 9_999_999)]);
    let open = game(GameStatus::WaitingForPlayer, 10_000_000);
    let mut ctx = CancelGame { game_account: open, player1: id(1) };
    assert_eq!(
        cancel_game(&mut ledger, &mut ctx),
        Err(Failure::Ledger(LedgerError::InsufficientFunds))
    );
    assert_eq!(ctx.game_account, open);
    assert_eq!(ledger.balance(&CUSTODY), 9_999_999);
}

#[test]
fn cancel_refunds_the_stake() {
    let mut ledger = ledger_with(&[(CUSTODY, 10_000_500), (wallet(1), 3)]);
    let open = game(GameStatus::WaitingForPlayer, 10_000_000);
    let mut ctx = CancelGame { game_account: open, player1: id(1) };
    assert_eq!(cancel_game(&mut ledger, &mut ctx), Ok(()));
    assert_eq!(ctx.game_account, GameAccount { status: GameStatus::Cancelled, ..open });
    assert_eq!(ledger.balance(&CUSTODY), 500);
    assert_eq!(ledger.balance(&wallet(1)), 10_000_003);
}

#[test]
fn withdraw_by_anybody_but_the_administrator_is_rejected() {
    let mut ledger = ledger_with(&[(Address::Platform, 5_000_000)]);
    let state = PlatformState { total_fees_collected: 5_000_000, ..config(5) };
    let ctx = WithdrawFees { platform_state: state, admin: id(1) };
    assert_eq!(
        withdraw_fees(&mut ledger, &ctx, 1),
        Err(Failure::Rejected(ErrorCode::Unauthorized))
    );
    assert_eq!(
        withdraw_fees(&mut ledger, &ctx, 6_000_000),
        Err(Failure::Rejected(ErrorCode::Unauthorized))
    );
    assert_eq!(ledger.balance(&Address::Platform), 5_000_000);
    assert_eq!(ledger.balance(&wallet(1)), 0);
}

#[test]
fn withdraw_of_more_than_was_collected_is_rejected_whatever_the_record_holds() {
    let mut ledger = ledger_with(&[(Address::Platform, 900_000_000)]);
    let state = PlatformState { total_fees_collected: 1_000_000, ..config(5) };
    let ctx = WithdrawFees { platform_state: state, admin: id(3) };
    assert_eq!(
        withdraw_fees(&mut ledger, &ctx, 1_000_001),
        Err(Failure::Rejected(ErrorCode::InsufficientFees))
    );
    assert_eq!(ledger.balance(&Address::Platform), 900_000_000);
    assert_eq!(ledger.balance(&wallet(3)), 0);
    assert_eq!(withdraw_fees(&mut ledger, &ctx, 1_000_000), Ok(()));
    assert_eq!(ledger.balance(&Address::Platform), 899_000_000);
    assert_eq!(ledger.balance(&wallet(3)), 1_000_000);
}

#[test]
fn withdraw_of_more_than_the_record_holds_is_rejected() {
    let mut ledger = ledger_with(&[(Address::Platform, 999)]);
    let state = PlatformState { total_fees_collected: 1_000_000, ..config(5) };
    let ctx = WithdrawFees { platform_state: state, admin: id(3) };
    assert_eq!(
        withdraw_fees(&mut ledger, &ctx, 1_000),
        Err(Failure::Rejected(ErrorCode::InsufficientFees))
    );
    assert_eq!(ledger.balance(&Address::Platform), 999);
    assert_eq!(withdraw_fees(&mut ledger, &ctx, 999), Ok(()));
    assert_eq!(ledger.balance(&Address::Platform), 0);
    assert_eq!(ledger.balance(&wallet(3)), 999);
}

#[test]
fn withdraw_of_nothing_changes_nothing() {
    let mut ledger = Ledger::new();
    let ctx = WithdrawFees { platform_state: config(5), admin: id(3) };
    assert_eq!(withdraw_fees(&mut ledger, &ctx, 0), Ok(()));
    assert_eq!(ledger.balance(&Address::Platform), 0);
    assert_eq!(ledger.balance(&wallet(3)), 0);
    assert_eq!(ledger.total_supply(), 0);
}

#[test]
fn create_leaves_an_existing_match_as_it_is() {
    let mut ledger = ledger_with(&[(wallet(5), 100_000_000)]);
    let existing = game(GameStatus::InProgress, 30_000_000);
    let mut ctx = CreateGame { game_account: Some(existing), player1: id(5) };
    assert_eq!(
        create_game(&mut ledger, &mut ctx, 11, 10_000_000, 0),
        Err(Failure::AlreadyExists)
    );
    assert_eq!(ctx.game_account, Some(existing));
    assert_eq!(ledger.balance(&wallet(5)), 100_000_000);
    assert_eq!(ledger.balance(&CUSTODY), 0);
}
