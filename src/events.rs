use vstd::prelude::*;

use crate::pubkey::Pubkey;

verus! {

/// Notification that a pool was created.
#[derive(Clone, Copy, Debug, PartialEq, Eq)]
pub struct InitializePoolEvent {
    pub authority: Pubkey,
    pub end_timestamp: i64,
    pub game_active: bool,
}

/// Notification of an accepted deposit; `amount` moves from `depositor` into
/// the custody of `pool`.
#[derive(Clone, Copy, Debug, PartialEq, Eq)]
pub struct DepositEvent {
    pub pool: Pubkey,
    pub depositor: Pubkey,
    pub amount: u64,
}

/// Notification of a settlement; `amount` moves from the custody of `pool`
/// to `claimer`.
#[derive(Clone, Copy, Debug, PartialEq, Eq)]
pub struct ClaimPoolEvent {
    pub pool: Pubkey,
    pub claimer: Pubkey,
    pub amount: u64,
    pub is_winner: bool,
}

} // verus!
