use vstd::prelude::*;

use crate::pubkey::Pubkey;

verus! {

/// The persistent record of one pool: its custody and its timing.
#[derive(Clone, Copy, Debug, PartialEq, Eq)]
pub struct Pool {
    /// The owner of the record; receives the storage stake when it is released.
    pub authority: Pubkey,
    /// Value currently held in custody.
    pub pot_amount: u64,
    /// The most recent depositor: the winner if the countdown runs out now.
    pub last_depositor: Pubkey,
    /// The most recent deposit; the next one must be strictly larger.
    pub last_deposit_amount: u64,
    /// Deposits are accepted up to this time, claims from this time on.
    pub end_timestamp: i64,
    /// False once the pot has been paid out.
    pub game_active: bool,
    /// Bump seed of the pool's derived address.
    pub bump: u8,
    /// The countdown that each deposit restarts.
    pub duration_seconds: i64,
}

impl Pool {
    /// What every pool created by `initialize_pool` satisfies, and every
    /// deposit and claim keeps.
    pub open spec fn wf(&self) -> bool {
        &&& self.duration_seconds > 0
        &&& self.game_active ==> self.last_deposit_amount <= self.pot_amount
        &&& !self.game_active ==> self.pot_amount == 0
    }

    /// Open: deposits are accepted at time `now`.
    pub open spec fn is_open(&self, now: i64) -> bool {
        self.game_active && now <= self.end_timestamp
    }

    /// Expired: the countdown has run out and the pot awaits its claim.
    pub open spec fn is_expired(&self, now: i64) -> bool {
        self.game_active && now >= self.end_timestamp
    }

    /// Settled: the pot has been paid out; nothing more can happen.
    pub open spec fn is_settled(&self) -> bool {
        !self.game_active
    }
}

} // verus!
