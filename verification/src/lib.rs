//! Escrow settlement for two-party staked matches.
//!
//! Two players each pay the same stake into the custody of a match. A
//! resolver names the winner, who receives the pool less the platform's fee;
//! or the depositor takes the stake back while nobody has joined. Every
//! operation works on a [`Ledger`] of balances and on the records it names,
//! and either takes effect as a whole or changes nothing.

pub mod address;
pub mod cancel;
pub mod create;
pub mod errors;
pub mod fees;
pub mod identity;
pub mod join;
pub mod ledger;
pub mod lifecycle;
pub mod settle;
pub mod setup;
pub mod state;
pub mod withdraw;

pub use address::Address;
pub use cancel::{cancel_game, CancelGame};
pub use create::{create_game, CreateGame};
pub use errors::{ErrorCode, Failure, LedgerError};
pub use fees::{settlement, Settlement, MAX_FEE_PERCENTAGE, MIN_STAKE};
pub use identity::Identity;
pub use join::{join_game, JoinGame};
pub use ledger::Ledger;
pub use settle::{complete_game, CompleteGame};
pub use setup::{initialize, Initialize};
pub use state::{GameAccount, GameStatus, PlatformState};
pub use withdraw::{withdraw_fees, WithdrawFees};
