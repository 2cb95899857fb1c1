use vstd::prelude::*;

verus! {

/// Why an operation was refused. A refused operation changes nothing.
#[derive(Clone, Copy, Debug, PartialEq, Eq, Structural)]
pub enum GameError {
    AlreadyInitialized,
    NotInitialized,
    Unauthorized,
    ContractPaused,
    AlreadyOwned,
    NoPet,
    NoStatsFound,
    InsufficientEnergy,
    InsufficientGold,
    InvalidMove,
    InvalidStat,
    TooManyMoves,
    NoMoves,
}

impl GameError {
    /// The text of the message for this error.
    pub open spec fn message_text(self) -> Seq<char> {
        match self {
            GameError::AlreadyInitialized => "Already initialized"@,
            GameError::NotInitialized => "Not initialized"@,
            GameError::Unauthorized => "Unauthorized"@,
            GameError::ContractPaused => "Contract is paused"@,
            GameError::AlreadyOwned => "User already has a pet"@,
            GameError::NoPet => "No pet found"@,
            GameError::NoStatsFound => "No stats found"@,
            GameError::InsufficientEnergy => "Not enough energy"@,
            GameError::InsufficientGold => "Not enough gold"@,
            GameError::InvalidMove => "Invalid move"@,
            GameError::InvalidStat => "Invalid stat"@,
            GameError::TooManyMoves => "Too many moves"@,
            GameError::NoMoves => "No moves provided"@,
        }
    }

    /// The message a host shows when it aborts a call with this error.
    pub fn message(&self) -> (text: &'static str)
        ensures
            text@ == self.message_text(),
    {
        match self {
            GameError::AlreadyInitialized => "Already initialized",
            GameError::NotInitialized => "Not initialized",
            GameError::Unauthorized => "Unauthorized",
            GameError::ContractPaused => "Contract is paused",
            GameError::AlreadyOwned => "User already has a pet",
            GameError::NoPet => "No pet found",
            GameError::NoStatsFound => "No stats found",
            GameError::InsufficientEnergy => "Not enough energy",
            GameError::InsufficientGold => "Not enough gold",
            GameError::InvalidMove => "Invalid move",
            GameError::InvalidStat => "Invalid stat",
            GameError::TooManyMoves => "Too many moves",
            GameError::NoMoves => "No moves provided",
        }
    }
}

} // verus!
