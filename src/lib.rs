//! A single-pot, time-extension escrow game: participants deposit strictly
//! increasing amounts into one pot, each deposit restarts a countdown, and the
//! last depositor may claim the whole pot once the countdown has run out.
//!
//! The operations are pure transitions over plain values: the caller supplies
//! the current time and carries out the fund transfers that the returned
//! notifications name, only after an operation has succeeded.

mod claim_prize;
mod deposit;
mod error;
mod events;
mod initialize_pool;
mod lifecycle;
mod pubkey;
pub mod solvarn;
mod state;

pub use claim_prize::{claim_outcome, claim_prize, claim_step, ClaimPrize};
pub use deposit::{deposit, deposit_outcome, deposit_step, Deposit};
pub use error::PoolError;
pub use events::{ClaimPoolEvent, DepositEvent, InitializePoolEvent};
pub use initialize_pool::{init_outcome, init_step, initialize_pool, InitializePool};
pub use lifecycle::{
    deposit_all, lemma_accepted_deposits_increase, lemma_custody_conserved, lemma_deadline_reset,
    lemma_low_deposit_refused, lemma_no_deposit_after_expiry, lemma_pot_is_sum_of_deposits,
    lemma_single_claim, lemma_winner_only, total_amount,
};
pub use pubkey::Pubkey;
pub use state::Pool;
