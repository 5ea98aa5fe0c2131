use vstd::prelude::*;

use crate::error::PoolError;
use crate::events::ClaimPoolEvent;
use crate::pubkey::Pubkey;
use crate::state::Pool;

verus! {

/// The accounts of a claim: the signing claimer, the authority that the pool
/// names, and the pool record with its address.
#[derive(Clone, Copy, Debug)]
pub struct ClaimPrize {
    pub claimer: Pubkey,
    pub authority: Pubkey,
    pub pool_key: Pubkey,
    pub pool: Pool,
}

/// The settled pool after `claimer` claims at time `now`, or the first check
/// that refuses it. Every check comes before any change.
pub open spec fn claim_step(pool: Pool, authority: Pubkey, claimer: Pubkey, now: i64) -> Result<
    Pool,
    PoolError,
> {
    if pool.authority@ != authority@ {
        Err(PoolError::InvalidAuthority)
    } else if now < pool.end_timestamp {
        Err(PoolError::GameNotEnded)
    } else if !pool.game_active {
        Err(PoolError::AlreadyClaimed)
    } else if pool.pot_amount == 0 {
        Err(PoolError::EmptyPot)
    } else if claimer@ != pool.last_depositor@ {
        Err(PoolError::InvalidWinner)
    } else {
        Ok(Pool { game_active: false, pot_amount: 0, ..pool })
    }
}

/// What a claim at time `now` does: `r` and the accounts `after` are as
/// `claim_step` says for the accounts `before`.
pub open spec fn claim_outcome(
    before: ClaimPrize,
    after: ClaimPrize,
    now: i64,
    r: Result<ClaimPoolEvent, PoolError>,
) -> bool {
    &&& after.claimer == before.claimer
    &&& after.authority == before.authority
    &&& after.pool_key == before.pool_key
    &&& match claim_step(before.pool, before.authority, before.claimer, now) {
        Ok(p) => {
            &&& after.pool == p
            &&& r == Ok::<ClaimPoolEvent, PoolError>(
                ClaimPoolEvent {
                    pool: before.pool_key,
                    claimer: before.claimer,
                    amount: before.pool.pot_amount,
                    is_winner: true,
                },
            )
        },
        Err(e) => after.pool == before.pool && r == Err::<ClaimPoolEvent, PoolError>(e),
    }
}

/// Settles an expired pool in favour of its last depositor: the pool is
/// marked settled and emptied before anything is paid out. Returns the
/// notification, which names the payout of the whole pot to the claimer that
/// the caller carries out before releasing the record to the authority; on an
/// error nothing changes and nothing moves.
pub fn claim_prize(ctx: &mut ClaimPrize, now: i64) -> (r: Result<ClaimPoolEvent, PoolError>)
    ensures
        claim_outcome(*old(ctx), *final(ctx), now, r),
        r is Ok ==> final(ctx).pool.is_settled() && final(ctx).pool.pot_amount == 0,
        old(ctx).pool.wf() ==> final(ctx).pool.wf(),
{
    let pool = &mut ctx.pool;
    if !(pool.authority == ctx.authority) {
        return Err(PoolError::InvalidAuthority);
    }
    if now < pool.end_timestamp {
        return Err(PoolError::GameNotEnded);
    }
    if !pool.game_active {
        return Err(PoolError::AlreadyClaimed);
    }
    if pool.pot_amount == 0 {
        return Err(PoolError::EmptyPot);
    }
    let is_winner = ctx.claimer == pool.last_depositor;
    if !is_winner {
        return Err(PoolError::InvalidWinner);
    }
    let amount = pool.pot_amount;
    pool.game_active = false;
    pool.pot_amount = 0;
    Ok(ClaimPoolEvent { pool: ctx.pool_key, claimer: ctx.claimer, amount, is_winner })
}

} // verus!
