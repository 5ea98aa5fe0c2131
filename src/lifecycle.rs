use vstd::prelude::*;

use crate::claim_prize::{claim_outcome, claim_step, ClaimPrize};
use crate::deposit::{deposit_outcome, deposit_step, Deposit};
use crate::error::PoolError;
use crate::events::{ClaimPoolEvent, DepositEvent};
use crate::initialize_pool::init_step;
use crate::pubkey::Pubkey;
use crate::state::Pool;

verus! {

/// The pool after the deposits `reqs` (depositor, amount, time), made one
/// after the other against `pool`, or the first refusal.
pub open spec fn deposit_all(pool: Pool, authority: Pubkey, reqs: Seq<(Pubkey, u64, i64)>) -> Result<
    Pool,
    PoolError,
>
    decreases reqs.len(),
{
    if reqs.len() == 0 {
        Ok(pool)
    } else {
        match deposit_all(pool, authority, reqs.drop_last()) {
            Ok(p) => deposit_step(p, authority, reqs.last().0, reqs.last().1, reqs.last().2),
            Err(e) => Err(e),
        }
    }
}

/// The sum of the amounts of the deposits `reqs`.
pub open spec fn total_amount(reqs: Seq<(Pubkey, u64, i64)>) -> int
    decreases reqs.len(),
{
    if reqs.len() == 0 {
        0
    } else {
        total_amount(reqs.drop_last()) + reqs.last().1
    }
}

/// Accepted deposits strictly increase: each beats the last deposit before
/// the sequence and every earlier one, and the pool remembers the latest.
pub proof fn lemma_accepted_deposits_increase(
    pool: Pool,
    authority: Pubkey,
    reqs: Seq<(Pubkey, u64, i64)>,
)
    requires
        deposit_all(pool, authority, reqs) is Ok,
    ensures
        forall|i: int, j: int| 0 <= i < j < reqs.len() ==> reqs[i].1 < reqs[j].1,
        forall|i: int| 0 <= i < reqs.len() ==> pool.last_deposit_amount < reqs[i].1,
        deposit_all(pool, authority, reqs)->Ok_0.last_deposit_amount == if reqs.len() == 0 {
            pool.last_deposit_amount
        } else {
            reqs.last().1
        },
    decreases reqs.len(),
{
    if reqs.len() > 0 {
        let prefix = reqs.drop_last();
        lemma_accepted_deposits_increase(pool, authority, prefix);
        assert forall|i: int| 0 <= i < reqs.len() - 1 implies reqs[i].1 < reqs.last().1 by {
            assert(prefix[i] == reqs[i]);
            assert(prefix[prefix.len() - 1] == reqs[reqs.len() - 2]);
        }
        assert forall|i: int, j: int| 0 <= i < j < reqs.len() implies reqs[i].1 < reqs[j].1 by {
            if j < reqs.len() - 1 {
                assert(prefix[i] == reqs[i] && prefix[j] == reqs[j]);
            }
        }
        assert forall|i: int| 0 <= i < reqs.len() implies pool.last_deposit_amount < reqs[i].1 by {
            if i < reqs.len() - 1 {
                assert(prefix[i] == reqs[i]);
            }
        }
    }
}

/// A deposit that does not beat the last one is refused and changes nothing;
/// into an open pool, the refusal is `InvalidAmount`.
pub proof fn lemma_low_deposit_refused(
    before: Deposit,
    after: Deposit,
    amount: u64,
    now: i64,
    r: Result<DepositEvent, PoolError>,
)
    requires
        deposit_outcome(before, after, amount, now, r),
        amount <= before.pool.last_deposit_amount,
    ensures
        r is Err,
        after == before,
        before.pool.authority@ == before.authority@ && before.pool.is_open(now) ==> r == Err::<
            DepositEvent,
            PoolError,
        >(PoolError::InvalidAmount),
{
}

/// Every accepted deposit at time `now` sets the deadline to exactly
/// `now + duration_seconds`, whatever the deadline was.
pub proof fn lemma_deadline_reset(
    before: Deposit,
    after: Deposit,
    amount: u64,
    now: i64,
    r: Result<DepositEvent, PoolError>,
)
    requires
        deposit_outcome(before, after, amount, now, r),
        r is Ok,
    ensures
        after.pool.end_timestamp == now + before.pool.duration_seconds,
        after.pool.duration_seconds == before.pool.duration_seconds,
{
}

/// Once the deadline has passed, every deposit is refused, and the pot and
/// the last depositor stay as they were; the refusal is `GameEnded` for the
/// pool's own authority.
pub proof fn lemma_no_deposit_after_expiry(
    before: Deposit,
    after: Deposit,
    amount: u64,
    now: i64,
    r: Result<DepositEvent, PoolError>,
)
    requires
        deposit_outcome(before, after, amount, now, r),
        now > before.pool.end_timestamp,
    ensures
        r is Err,
        after.pool.pot_amount == before.pool.pot_amount,
        after.pool.last_depositor == before.pool.last_depositor,
        after == before,
        before.pool.authority@ == before.authority@ ==> r == Err::<DepositEvent, PoolError>(
            PoolError::GameEnded,
        ),
{
}

/// After a successful claim, any further claim on the same pool fails, and
/// with `AlreadyClaimed` once the clock has not gone back.
pub proof fn lemma_single_claim(
    first_before: ClaimPrize,
    first_after: ClaimPrize,
    first_now: i64,
    first: Result<ClaimPoolEvent, PoolError>,
    second_before: ClaimPrize,
    second_after: ClaimPrize,
    second_now: i64,
    second: Result<ClaimPoolEvent, PoolError>,
)
    requires
        claim_outcome(first_before, first_after, first_now, first),
        first is Ok,
        second_before.pool == first_after.pool,
        second_before.authority == first_before.authority,
        claim_outcome(second_before, second_after, second_now, second),
    ensures
        second is Err,
        second_after == second_before,
        second_now >= first_now ==> second == Err::<ClaimPoolEvent, PoolError>(
            PoolError::AlreadyClaimed,
        ),
{
}

/// Only the last depositor can claim: a claim by anyone else fails, changes
/// nothing and pays nothing, with `InvalidWinner` once the pool is expired
/// and holds a pot.
pub proof fn lemma_winner_only(
    before: ClaimPrize,
    after: ClaimPrize,
    now: i64,
    r: Result<ClaimPoolEvent, PoolError>,
)
    requires
        claim_outcome(before, after, now, r),
        before.claimer@ != before.pool.last_depositor@,
    ensures
        r is Err,
        after == before,
        before.pool.authority@ == before.authority@ && before.pool.is_expired(now)
            && before.pool.pot_amount > 0 ==> r == Err::<ClaimPoolEvent, PoolError>(
            PoolError::InvalidWinner,
        ),
{
}

/// Accepted deposits add exactly their amounts to the pot.
pub proof fn lemma_pot_is_sum_of_deposits(
    pool: Pool,
    authority: Pubkey,
    reqs: Seq<(Pubkey, u64, i64)>,
)
    requires
        deposit_all(pool, authority, reqs) is Ok,
    ensures
        deposit_all(pool, authority, reqs)->Ok_0.pot_amount == pool.pot_amount + total_amount(
            reqs,
        ),
    decreases reqs.len(),
{
    if reqs.len() > 0 {
        lemma_pot_is_sum_of_deposits(pool, authority, reqs.drop_last());
    }
}

/// Over a pool's life (creation, accepted deposits, a claim) the claim pays
/// out exactly what the deposits paid in, never more, and leaves the pot at 0.
pub proof fn lemma_custody_conserved(
    allocated: Pool,
    authority: Pubkey,
    duration_seconds: i64,
    created_at: i64,
    reqs: Seq<(Pubkey, u64, i64)>,
    before: ClaimPrize,
    after: ClaimPrize,
    now: i64,
    r: Result<ClaimPoolEvent, PoolError>,
)
    requires
        init_step(allocated, authority, duration_seconds, created_at) is Ok,
        deposit_all(init_step(allocated, authority, duration_seconds, created_at)->Ok_0, authority, reqs)
            == Ok::<Pool, PoolError>(before.pool),
        claim_outcome(before, after, now, r),
        r is Ok,
    ensures
        r->Ok_0.amount == total_amount(reqs),
        r->Ok_0.amount <= total_amount(reqs),
        after.pool.pot_amount == 0,
        after.pool.is_settled(),
{
    lemma_pot_is_sum_of_deposits(
        init_step(allocated, authority, duration_seconds, created_at)->Ok_0,
        authority,
        reqs,
    );
}

} // verus!
