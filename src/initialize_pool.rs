use vstd::prelude::*;

use crate::error::PoolError;
use crate::events::InitializePoolEvent;
use crate::pubkey::Pubkey;
use crate::state::Pool;

verus! {

/// The accounts of a pool creation: the signing authority and the freshly
/// allocated record.
#[derive(Clone, Copy, Debug)]
pub struct InitializePool {
    pub authority: Pubkey,
    pub pool: Pool,
}

/// The record that creation at time `now` writes over `pool`, or the error.
pub open spec fn init_step(pool: Pool, authority: Pubkey, duration_seconds: i64, now: i64) -> Result<
    Pool,
    PoolError,
> {
    if duration_seconds <= 0 {
        Err(PoolError::InvalidDuration)
    } else if now + duration_seconds > i64::MAX {
        Err(PoolError::Overflow)
    } else {
        Ok(
          Pool {
              authority,
              pot_amount: 0,
              last_depositor: Pubkey::spec_default(),
              last_deposit_amount: 0,
              end_timestamp: (now + duration_seconds) as i64,
              game_active: true,
              bump: pool.bump,
              duration_seconds,
          },
        )
    }
}

/// What a creation at time `now` does: `r` and the accounts `after` are as
/// `init_step` says for the accounts `before`.
pub open spec fn init_outcome(
    before: InitializePool,
    after: InitializePool,
    duration_seconds: i64,
    now: i64,
    r: Result<InitializePoolEvent, PoolError>,
) -> bool {
    &&& after.authority == before.authority
    &&& match init_step(before.pool, before.authority, duration_seconds, now) {
        Ok(p) => {
            &&& after.pool == p
            &&& r == Ok::<InitializePoolEvent, PoolError>(
                InitializePoolEvent {
                    authority: before.authority,
                    end_timestamp: p.end_timestamp,
                    game_active: true,
                },
            )
        },
        Err(e) => after.pool == before.pool && r == Err::<InitializePoolEvent, PoolError>(e),
    }
}

/// Opens the pool at time `now`: an empty pot, no depositor yet, and a
/// deadline `duration_seconds` ahead. Returns the creation notification.
pub fn initialize_pool(ctx: &mut InitializePool, duration_seconds: i64, now: i64) -> (r: Result<
    InitializePoolEvent,
    PoolError,
>)
    ensures
        init_outcome(*old(ctx), *final(ctx), duration_seconds, now, r),
        r is Ok ==> final(ctx).pool.wf() && final(ctx).pool.is_open(now),
{
    if duration_seconds <= 0 {
        return Err(PoolError::InvalidDuration);
    }
    let end_timestamp = match now.checked_add(duration_seconds) {
        Some(t) => t,
        None => return Err(PoolError::Overflow),
    };
    let authority = ctx.authority;
    ctx.pool = Pool {
        authority,
        pot_amount: 0,
        last_depositor: Pubkey::default(),
        last_deposit_amount: 0,
        end_timestamp,
        game_active: true,
        bump: ctx.pool.bump,
        duration_seconds,
    };
    Ok(InitializePoolEvent { authority, end_timestamp, game_active: true })
}

} // verus!
