use vstd::prelude::*;

use crate::error::PoolError;
use crate::events::DepositEvent;
use crate::pubkey::Pubkey;
use crate::state::Pool;

verus! {

/// The accounts of a deposit: the signing depositor, the authority that the
/// pool names, and the pool record with its address.
#[derive(Clone, Copy, Debug)]
pub struct Deposit {
    pub depositor: Pubkey,
    pub authority: Pubkey,
    pub pool_key: Pubkey,
    pub pool: Pool,
}

/// The pool after `depositor` deposits `amount` at time `now`, or the first
/// check that refuses it. Every check comes before any change.
pub open spec fn deposit_step(
    pool: Pool,
    authority: Pubkey,
    depositor: Pubkey,
    amount: u64,
    now: i64,
) -> Result<Pool, PoolError> {
    if pool.authority@ != authority@ {
        Err(PoolError::InvalidAuthority)
    } else if !pool.is_open(now) {
        Err(PoolError::GameEnded)
    } else if amount <= pool.last_deposit_amount {
        Err(PoolError::InvalidAmount)
    } else if pool.pot_amount + amount > u64::MAX {
        Err(PoolError::Overflow)
    } else if !(i64::MIN <= now + pool.duration_seconds <= i64::MAX) {
        Err(PoolError::Overflow)
    } else {
        Ok(
          Pool {
              pot_amount: (pool.pot_amount + amount) as u64,
              last_depositor: depositor,
              last_deposit_amount: amount,
              end_timestamp: (now + pool.duration_seconds) as i64,
              ..pool
          },
        )
    }
}

/// What a deposit of `amount` at time `now` does: `r` and the accounts
/// `after` are as `deposit_step` says for the accounts `before`.
pub open spec fn deposit_outcome(
    before: Deposit,
    after: Deposit,
    amount: u64,
    now: i64,
    r: Result<DepositEvent, PoolError>,
) -> bool {
    &&& after.depositor == before.depositor
    &&& after.authority == before.authority
    &&& after.pool_key == before.pool_key
    &&& match deposit_step(before.pool, before.authority, before.depositor, amount, now) {
        Ok(p) => {
            &&& after.pool == p
            &&& r == Ok::<DepositEvent, PoolError>(
                DepositEvent { pool: before.pool_key, depositor: before.depositor, amount },
            )
        },
        Err(e) => after.pool == before.pool && r == Err::<DepositEvent, PoolError>(e),
    }
}

/// Accepts `amount` from the depositor at time `now`, if the pool is open and
/// the amount beats the last deposit: the pot grows by `amount`, the depositor
/// becomes the provisional winner and the countdown restarts from `now`.
/// Returns the notification, which also names the transfer into custody that
/// the caller carries out; on an error nothing changes and nothing moves.
pub fn deposit(ctx: &mut Deposit, amount: u64, now: i64) -> (r: Result<DepositEvent, PoolError>)
    ensures
        deposit_outcome(*old(ctx), *final(ctx), amount, now, r),
        r is Ok ==> {
          &&& amount > old(ctx).pool.last_deposit_amount
          &&& final(ctx).pool.end_timestamp == now + old(ctx).pool.duration_seconds
        },
        now > old(ctx).pool.end_timestamp ==> r is Err,
        old(ctx).pool.wf() ==> final(ctx).pool.wf(),
{
    let pool = &mut ctx.pool;
    if !(pool.authority == ctx.authority) {
        return Err(PoolError::InvalidAuthority);
    }
    if !(now <= pool.end_timestamp && pool.game_active) {
        return Err(PoolError::GameEnded);
    }
    if amount <= pool.last_deposit_amount {
        return Err(PoolError::InvalidAmount);
    }
    let pot_amount = match pool.pot_amount.checked_add(amount) {
        Some(v) => v,
        None => return Err(PoolError::Overflow),
    };
    let end_timestamp = match now.checked_add(pool.duration_seconds) {
        Some(t) => t,
        None => return Err(PoolError::Overflow),
    };
    pool.pot_amount = pot_amount;
    pool.last_depositor = ctx.depositor;
    pool.last_deposit_amount = amount;
    pool.end_timestamp = end_timestamp;
    Ok(DepositEvent { pool: ctx.pool_key, depositor: ctx.depositor, amount })
}

} // verus!
