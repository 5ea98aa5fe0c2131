use vstd::prelude::*;

verus! {

/// Every way in which an operation on a pool can be refused. Each one is a
/// validation failure: the operation changes nothing and moves no funds.
#[derive(Clone, Copy, Debug, PartialEq, Eq, Structural)]
pub enum PoolError {
    InvalidDuration,
    InvalidAmount,
    GameEnded,
    GameNotEnded,
    Overflow,
    InvalidAuthority,
    InvalidWinner,
    EmptyPot,
    AlreadyClaimed,
}

impl PoolError {
    /// A human-readable description of the failure.
    pub fn message(&self) -> &'static str {
        match self {
            PoolError::InvalidDuration => "The specified duration is invalid",
            PoolError::InvalidAmount => "The specified deposit amount is invalid",
            PoolError::GameEnded => "The game has already ended",
            PoolError::GameNotEnded => "The game is still active",
            PoolError::Overflow => "The amount calculation caused an overflow",
            PoolError::InvalidAuthority => "The provided authority is not valid",
            PoolError::InvalidWinner => "The specified winner is not valid",
            PoolError::EmptyPot => "The prize pot is empty",
            PoolError::AlreadyClaimed => "The prize has already been claimed",
        }
    }
}

} // verus!
