//! The records that the engine keeps: the platform's configuration and one
//! custody record for each match.

use crate::fees::{MAX_FEE_PERCENTAGE, MIN_STAKE};
use crate::identity::Identity;
use vstd::prelude::*;

verus! {

/// Where a match stands in its life.
///
/// A match waits for an opponent, is then in progress, and ends completed;
/// or it is cancelled while it still waits. `Completed` and `Cancelled` are
/// final.
#[derive(Clone, Copy, Debug, PartialEq, Eq, Structural)]
pub enum GameStatus {
    /// The depositor has paid; nobody has joined yet.
    WaitingForPlayer,
    /// Both players have paid; the match awaits its result.
    InProgress,
    /// The match has been settled and the pool handed out.
    Completed,
    /// The depositor has taken the stake back.
    Cancelled,
}

impl GameStatus {
    /// How far a match has come: no operation takes a match to a lower
    /// stage.
    pub open spec fn stage(self) -> nat {
        match self {
            GameStatus::WaitingForPlayer => 0,
            GameStatus::InProgress => 1,
            GameStatus::Completed => 2,
            GameStatus::Cancelled => 2,
        }
    }

    /// Whether no operation changes a match in this status any more.
    pub open spec fn is_final(self) -> bool {
        self == GameStatus::Completed || self == GameStatus::Cancelled
    }

    /// Whether the engine can take a match from this status to `next` in one
    /// operation.
    pub open spec fn leads_to(self, next: GameStatus) -> bool {
        ||| self == GameStatus::WaitingForPlayer && next == GameStatus::InProgress
        ||| self == GameStatus::WaitingForPlayer && next == GameStatus::Cancelled
        ||| self == GameStatus::InProgress && next == GameStatus::Completed
    }

    /// Tells whether a match in this status has come to its end.
    pub fn is_terminal(&self) -> (ended: bool)
        ensures
            ended == self.is_final(),
    {
        match self {
            GameStatus::Completed | GameStatus::Cancelled => true,
            GameStatus::WaitingForPlayer | GameStatus::InProgress => false,
        }
    }
}

/// The platform's configuration and running totals. There is one for the
/// engine's whole life.
#[derive(Clone, Copy, Debug, PartialEq, Eq)]
pub struct PlatformState {
    /// Who may withdraw fees.
    pub admin: Identity,
    /// The platform's share of each pool, in percent.
    pub fee_percentage: u8,
    /// How many matches have been settled.
    pub total_games: u64,
    /// The sum of all fees computed at settlements.
    pub total_fees_collected: u64,
}

impl PlatformState {
    /// The fee is a percentage.
    pub open spec fn wf(self) -> bool {
        self.fee_percentage <= MAX_FEE_PERCENTAGE
    }
}

/// The custody record of one match.
#[derive(Clone, Copy, Debug, PartialEq, Eq)]
pub struct GameAccount {
    /// The identifier that the match was created under.
    pub game_id: u64,
    /// The depositor: who created the match and paid the first stake.
    pub player1: Identity,
    /// The opponent; nobody until somebody joins.
    pub player2: Identity,
    /// What each of the two players puts in.
    pub stake_amount: u64,
    /// Where the match stands in its life.
    pub status: GameStatus,
    /// The winner; nobody until the match is settled.
    pub winner: Identity,
    /// When the match was created. The engine only stores it.
    pub created_at: i64,
}

impl GameAccount {
    /// What holds of every record that the engine has written: the stake is
    /// at least the minimum; the opponent's slot is empty while the match
    /// waits or is cancelled, and taken by somebody other than the depositor
    /// from then on; the winner's slot is empty until the match is completed,
    /// and then holds one of the two players.
    pub open spec fn wf(self) -> bool {
        &&& self.stake_amount >= MIN_STAKE
        &&& match self.status {
            GameStatus::WaitingForPlayer | GameStatus::Cancelled => {
                &&& self.player2 == Identity::nobody()
                &&& self.winner == Identity::nobody()
            },
            GameStatus::InProgress => {
                &&& self.player1 != self.player2
                &&& self.winner == Identity::nobody()
            },
            GameStatus::Completed => {
                &&& self.player1 != self.player2
                &&& (self.winner == self.player1 || self.winner == self.player2)
            },
        }
    }
}

} // verus!
