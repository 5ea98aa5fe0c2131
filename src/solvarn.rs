use vstd::prelude::*;

use crate::claim_prize::{claim_outcome, claim_prize, ClaimPrize};
use crate::deposit::{deposit, deposit_outcome, Deposit};
use crate::error::PoolError;
use crate::events::{ClaimPoolEvent, DepositEvent, InitializePoolEvent};
use crate::initialize_pool::{init_outcome, initialize_pool, InitializePool};

verus! {

/// Entry point: creates the pool at time `now`.
pub fn init_pool(ctx: &mut InitializePool, duration_seconds: i64, now: i64) -> (r: Result<
    InitializePoolEvent,
    PoolError,
>)
    ensures
        init_outcome(*old(ctx), *final(ctx), duration_seconds, now, r),
{
    initialize_pool(ctx, duration_seconds, now)
}

/// Entry point: deposits `amount` at time `now`.
pub fn deposit_sol(ctx: &mut Deposit, amount: u64, now: i64) -> (r: Result<DepositEvent, PoolError>)
    ensures
        deposit_outcome(*old(ctx), *final(ctx), amount, now, r),
{
    deposit(ctx, amount, now)
}

/// Entry point: claims the pot at time `now`.
pub fn claim(ctx: &mut ClaimPrize, now: i64) -> (r: Result<ClaimPoolEvent, PoolError>)
    ensures
        claim_outcome(*old(ctx), *final(ctx), now, r),
{
    claim_prize(ctx, now)
}

} // verus!
