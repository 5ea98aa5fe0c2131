use solvarn::solvarn::{claim, deposit_sol, init_pool};
use solvarn::{
    claim_prize, deposit, initialize_pool, ClaimPoolEvent, ClaimPrize, Deposit, DepositEvent,
    InitializePool, InitializePoolEvent, Pool, PoolError, Pubkey,
};

const DAY: i64 = 86400;

fn key(b: u8) -> Pubkey {
    Pubkey::new_from_array([b; 32])
}

fn blank_pool() -> Pool {
    Pool {
        authority: Pubkey::default(),
        pot_amount: 0,
        last_depositor: Pubkey::default(),
        last_deposit_amount: 0,
        end_timestamp: 0,
        game_active: false,
        bump: 254,
        duration_seconds: 0,
    }
}

fn open_pool(authority: Pubkey, duration: i64, now: i64) -> Pool {
    let mut ctx = InitializePool { authority, pool: blank_pool() };
    init_pool(&mut ctx, duration, now).unwrap();
    ctx.pool
}

fn deposit_ctx(depositor: Pubkey, authority: Pubkey, pool: Pool) -> Deposit {
    Deposit { depositor, authority, pool_key: key(200), pool }
}

fn claim_ctx(claimer: Pubkey, authority: Pubkey, pool: Pool) -> ClaimPrize {
    ClaimPrize { claimer, authority, pool_key: key(200), pool }
}

#[test]
fn end_to_end_scenario() {
    let auth = key(9);
    let a = key(1);
    let b = key(2);
    let c = key(3);
    let t0: i64 = 1_700_000_000;
    let pool = open_pool(auth, DAY, t0);

    let mut d = deposit_ctx(a, auth, pool);
    let ev = deposit_sol(&mut d, 100, t0 + 10).unwrap();
    assert_eq!(ev, DepositEvent { pool: key(200), depositor: a, amount: 100 });
    assert_eq!(d.pool.pot_amount, 100);
    assert_eq!(d.pool.end_timestamp, t0 + 10 + DAY);

    let mut d = deposit_ctx(b, auth, d.pool);
    let before = d.pool;
    assert_eq!(deposit_sol(&mut d, 50, t0 + 20), Err(PoolError::InvalidAmount));
    assert_eq!(d.pool, before);

    deposit_sol(&mut d, 200, t0 + 30).unwrap();
    assert_eq!(d.pool.pot_amount, 300);
    assert_eq!(d.pool.last_depositor, b);
    assert_eq!(d.pool.end_timestamp, t0 + 30 + DAY);

    let late = d.pool.end_timestamp + 1;
    let mut d = deposit_ctx(c, auth, d.pool);
    assert_eq!(deposit_sol(&mut d, 500, late), Err(PoolError::GameEnded));
    assert_eq!(d.pool.pot_amount, 300);

    let mut cl = claim_ctx(a, auth, d.pool);
    assert_eq!(claim(&mut cl, late), Err(PoolError::InvalidWinner));

    let mut cl = claim_ctx(b, auth, d.pool);
    let ev = claim(&mut cl, late).unwrap();
    assert_eq!(
        ev,
        ClaimPoolEvent { pool: key(200), claimer: b, amount: 300, is_winner: true }
    );
    assert!(!cl.pool.game_active);
    assert_eq!(cl.pool.pot_amount, 0);

    assert_eq!(claim(&mut cl, late + 5), Err(PoolError::AlreadyClaimed));
}

#[test]
fn init_sets_fresh_open_pool() {
    let auth = key(9);
    let mut ctx = InitializePool { authority: auth, pool: blank_pool() };
    let ev = initialize_pool(&mut ctx, 60, 1000).unwrap();
    assert_eq!(
        ev,
        InitializePoolEvent { authority: auth, end_timestamp: 1060, game_active: true }
    );
    assert_eq!(
        ctx.pool,
        Pool {
            authority: auth,
            pot_amount: 0,
            last_depositor: Pubkey::default(),
            last_deposit_amount: 0,
            end_timestamp: 1060,
            game_active: true,
            bump: 254,
            duration_seconds: 60,
        }
    );
}

#[test]
fn init_rejects_non_positive_duration() {
    for d in [0i64, -1, i64::MIN] {
        let mut ctx = InitializePool { authority: key(9), pool: blank_pool() };
        assert_eq!(initialize_pool(&mut ctx, d, 1000), Err(PoolError::InvalidDuration));
        assert_eq!(ctx.pool, blank_pool());
    }
}

#[test]
fn init_rejects_deadline_overflow() {
    let mut ctx = InitializePool { authority: key(9), pool: blank_pool() };
    assert_eq!(initialize_pool(&mut ctx, 10, i64::MAX - 5), Err(PoolError::Overflow));
    assert_eq!(ctx.pool, blank_pool());
}

#[test]
fn deposit_rejects_wrong_authority() {
    let pool = open_pool(key(9), DAY, 0);
    let mut d = deposit_ctx(key(1), key(8), pool);
    assert_eq!(deposit(&mut d, 10, 5), Err(PoolError::InvalidAuthority));
    assert_eq!(d.pool, pool);
}

#[test]
fn deposit_first_needs_positive_amount() {
    let pool = open_pool(key(9), DAY, 0);
    let mut d = deposit_ctx(key(1), key(9), pool);
    assert_eq!(deposit(&mut d, 0, 5), Err(PoolError::InvalidAmount));
    assert!(deposit(&mut d, 1, 5).is_ok());
    assert_eq!(d.pool.pot_amount, 1);
}

#[test]
fn deposit_equal_amount_is_refused() {
    let pool = open_pool(key(9), DAY, 0);
    let mut d = deposit_ctx(key(1), key(9), pool);
    deposit(&mut d, 40, 5).unwrap();
    let before = d.pool;
    d.depositor = key(2);
    assert_eq!(deposit(&mut d, 40, 6), Err(PoolError::InvalidAmount));
    assert_eq!(d.pool, before);
    assert_eq!(deposit(&mut d, 39, 6), Err(PoolError::InvalidAmount));
    assert_eq!(d.pool, before);
}

#[test]
fn deposit_pot_overflow_is_refused() {
    let mut pool = open_pool(key(9), DAY, 0);
    pool.pot_amount = u64::MAX - 5;
    pool.last_deposit_amount = 3;
    let mut d = deposit_ctx(key(1), key(9), pool);
    assert_eq!(deposit(&mut d, 6, 1), Err(PoolError::Overflow));
    assert_eq!(d.pool, pool);
    deposit(&mut d, 5, 1).unwrap();
    assert_eq!(d.pool.pot_amount, u64::MAX);
}

#[test]
fn deposit_deadline_overflow_is_refused() {
    let mut pool = open_pool(key(9), DAY, 0);
    pool.end_timestamp = i64::MAX;
    let mut d = deposit_ctx(key(1), key(9), pool);
    assert_eq!(deposit(&mut d, 6, i64::MAX - 10), Err(PoolError::Overflow));
    assert_eq!(d.pool, pool);
}

#[test]
fn deposit_resets_deadline_from_now() {
    let pool = open_pool(key(9), 100, 0);
    assert_eq!(pool.end_timestamp, 100);
    let mut d = deposit_ctx(key(1), key(9), pool);
    deposit(&mut d, 10, 99).unwrap();
    assert_eq!(d.pool.end_timestamp, 199);
    deposit(&mut d, 11, 100).unwrap();
    assert_eq!(d.pool.end_timestamp, 200);
}

#[test]
fn deposit_at_deadline_is_still_accepted() {
    let pool = open_pool(key(9), 100, 0);
    let mut d = deposit_ctx(key(1), key(9), pool);
    deposit(&mut d, 10, 100).unwrap();
    assert_eq!(d.pool.end_timestamp, 200);
}

#[test]
fn deposit_after_expiry_is_refused() {
    let pool = open_pool(key(9), 100, 0);
    let mut d = deposit_ctx(key(1), key(9), pool);
    deposit(&mut d, 10, 50).unwrap();
    let before = d.pool;
    for amount in [1u64, 11, u64::MAX] {
        assert_eq!(deposit(&mut d, amount, 151), Err(PoolError::GameEnded));
        assert_eq!(d.pool, before);
    }
}

#[test]
fn deposit_into_settled_pool_is_refused() {
    let mut pool = open_pool(key(9), 100, 0);
    pool.game_active = false;
    let mut d = deposit_ctx(key(1), key(9), pool);
    assert_eq!(deposit(&mut d, 10, 5), Err(PoolError::GameEnded));
}

#[test]
fn claim_before_deadline_is_refused() {
    let pool = open_pool(key(9), 100, 0);
    let mut d = deposit_ctx(key(1), key(9), pool);
    deposit(&mut d, 10, 0).unwrap();
    let mut c = claim_ctx(key(1), key(9), d.pool);
    assert_eq!(claim_prize(&mut c, 99), Err(PoolError::GameNotEnded));
    assert_eq!(c.pool, d.pool);
    assert!(claim_prize(&mut c, 100).is_ok());
}

#[test]
fn claim_of_empty_pot_is_refused() {
    let pool = open_pool(key(9), 100, 0);
    let mut c = claim_ctx(Pubkey::default(), key(9), pool);
    assert_eq!(claim_prize(&mut c, 500), Err(PoolError::EmptyPot));
    assert_eq!(c.pool, pool);
}

#[test]
fn claim_with_wrong_authority_is_refused() {
    let pool = open_pool(key(9), 100, 0);
    let mut d = deposit_ctx(key(1), key(9), pool);
    deposit(&mut d, 10, 0).unwrap();
    let mut c = claim_ctx(key(1), key(7), d.pool);
    assert_eq!(claim_prize(&mut c, 500), Err(PoolError::InvalidAuthority));
    assert_eq!(c.pool, d.pool);
}

#[test]
fn claim_by_non_winner_moves_nothing() {
    let pool = open_pool(key(9), 100, 0);
    let mut d = deposit_ctx(key(1), key(9), pool);
    deposit(&mut d, 10, 0).unwrap();
    d.depositor = key(2);
    deposit(&mut d, 20, 1).unwrap();
    for claimer in [key(1), key(9), Pubkey::default()] {
        let mut c = claim_ctx(claimer, key(9), d.pool);
        assert_eq!(claim_prize(&mut c, 500), Err(PoolError::InvalidWinner));
        assert_eq!(c.pool, d.pool);
    }
}

#[test]
fn second_claim_is_refused() {
    let pool = open_pool(key(9), 100, 0);
    let mut d = deposit_ctx(key(1), key(9), pool);
    deposit(&mut d, 10, 0).unwrap();
    let mut c = claim_ctx(key(1), key(9), d.pool);
    claim_prize(&mut c, 100).unwrap();
    let settled = c.pool;
    assert_eq!(claim_prize(&mut c, 100), Err(PoolError::AlreadyClaimed));
    c.claimer = key(3);
    assert_eq!(claim_prize(&mut c, 1000), Err(PoolError::AlreadyClaimed));
    assert_eq!(c.pool, settled);
}

#[test]
fn payout_equals_sum_of_deposits() {
    let pool = open_pool(key(9), 100, 0);
    let mut d = deposit_ctx(key(1), key(9), pool);
    let mut total: u64 = 0;
    let mut t: i64 = 0;
    for (i, amount) in [5u64, 8, 13, 21, 34].iter().enumerate() {
        d.depositor = key(i as u8 + 1);
        deposit(&mut d, *amount, t).unwrap();
        total += amount;
        t += 30;
    }
    assert_eq!(d.pool.pot_amount, 81);
    let mut c = claim_ctx(key(5), key(9), d.pool);
    let ev = claim_prize(&mut c, t + 100).unwrap();
    assert_eq!(ev.amount, total);
    assert_eq!(c.pool.pot_amount, 0);
}

#[test]
fn pubkey_roundtrip_and_equality() {
    let mut bytes = [0u8; 32];
    bytes[31] = 1;
    let k = Pubkey::new_from_array(bytes);
    assert_eq!(k.to_bytes(), bytes);
    assert!(k != Pubkey::default());
    assert!(Pubkey::default() == Pubkey::new_from_array([0u8; 32]));
    let mut other = bytes;
    other[0] = 7;
    assert!(k != Pubkey::new_from_array(other));
}

#[test]
fn error_messages() {
    assert_eq!(PoolError::GameEnded.message(), "The game has already ended");
    assert_eq!(PoolError::AlreadyClaimed.message(), "The prize has already been claimed");
    assert_eq!(PoolError::InvalidWinner.message(), "The specified winner is not valid");
}
