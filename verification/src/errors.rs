//! The ways in which an operation can be turned down.

use vstd::prelude::*;

verus! {

/// The named reasons for which the engine rejects an operation.
#[derive(Clone, Copy, Debug, PartialEq, Eq, Structural)]
pub enum ErrorCode {
    /// The fee percentage is above 100.
    InvalidFeePercentage,
    /// The stake is zero.
    InvalidStakeAmount,
    /// The stake is below the minimum.
    StakeTooLow,
    /// The match is not waiting for an opponent.
    GameNotAvailable,
    /// The depositor tried to join their own match.
    CannotPlaySelf,
    /// The match is not in progress.
    GameNotInProgress,
    /// The declared winner is neither of the two players.
    InvalidWinner,
    /// The match can no longer be cancelled.
    CannotCancelInProgress,
    /// The caller is not the identity that the operation is reserved for.
    Unauthorized,
    /// More fees were asked for than are recorded or held.
    InsufficientFees,
}

impl ErrorCode {
    /// The diagnostic text of each error, as a specification value.
    pub open spec fn text(self) -> Seq<char> {
        match self {
            ErrorCode::InvalidFeePercentage => "Fee percentage must be between 0 and 100"@,
            ErrorCode::InvalidStakeAmount => "Stake amount must be greater than 0"@,
            ErrorCode::StakeTooLow => "Minimum stake is 0.01 SOL"@,
            ErrorCode::GameNotAvailable => "Game is not available to join"@,
            ErrorCode::CannotPlaySelf => "Cannot play against yourself"@,
            ErrorCode::GameNotInProgress => "Game is not in progress"@,
            ErrorCode::InvalidWinner => "Invalid winner address"@,
            ErrorCode::CannotCancelInProgress => "Cannot cancel game in progress"@,
            ErrorCode::Unauthorized => "Unauthorized access"@,
            ErrorCode::InsufficientFees => "Insufficient fees to withdraw"@,
        }
    }

    /// The diagnostic text that goes with the error.
    pub fn message(&self) -> (msg: String)
        ensures
            msg@ == self.text(),
    {
        match self {
            ErrorCode::InvalidFeePercentage => "Fee percentage must be between 0 and 100".to_owned(),
            ErrorCode::InvalidStakeAmount => "Stake amount must be greater than 0".to_owned(),
            ErrorCode::StakeTooLow => "Minimum stake is 0.01 SOL".to_owned(),
            ErrorCode::GameNotAvailable => "Game is not available to join".to_owned(),
            ErrorCode::CannotPlaySelf => "Cannot play against yourself".to_owned(),
            ErrorCode::GameNotInProgress => "Game is not in progress".to_owned(),
            ErrorCode::InvalidWinner => "Invalid winner address".to_owned(),
            ErrorCode::CannotCancelInProgress => "Cannot cancel game in progress".to_owned(),
            ErrorCode::Unauthorized => "Unauthorized access".to_owned(),
            ErrorCode::InsufficientFees => "Insufficient fees to withdraw".to_owned(),
        }
    }
}

/// The ways in which the ledger turns down a movement of funds.
#[derive(Clone, Copy, Debug, PartialEq, Eq, Structural)]
pub enum LedgerError {
    /// The source holds less than the amount to move.
    InsufficientFunds,
    /// The deposit would take the ledger's supply beyond what it can count.
    SupplyOverflow,
}

/// Why an operation left everything as it was.
#[derive(Clone, Copy, Debug, PartialEq, Eq, Structural)]
pub enum Failure {
    /// The engine's own rules reject the operation.
    Rejected(ErrorCode),
    /// The ledger could not move the funds.
    Ledger(LedgerError),
    /// An amount or a total left the range of 64 bits.
    Overflow,
    /// The record that the operation was to create exists already.
    AlreadyExists,
}

} // verus!
