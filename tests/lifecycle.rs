use f0x01::commitment::{claim_rewards, create_commitment, reward_amount};
use f0x01::error::FocusError;
use f0x01::initialize::initialize_program;
use f0x01::session::{complete_session, start_session, update_streak, MIN_SESSION_SLOTS};
use f0x01::state::{same_key, Clock, FocusCommitment, FocusProgram, SessionRecord, UserProfile};
use f0x01::time::{days_elapsed, get_current_day_timestamp};
use f0x01::user::create_user_profile;

const DAY: i64 = 86400;
const T0: i64 = 1_699_923_600;
const ALICE: [u8; 32] = [7u8; 32];
const BOB: [u8; 32] = [9u8; 32];
const COMMITMENT_KEY: [u8; 32] = [3u8; 32];

fn program(rate: u64) -> FocusProgram {
    initialize_program(&[1u8; 32], 254, rate, &[2u8; 32])
}

fn clock(t: i64, slot: u64) -> Clock {
    Clock { unix_timestamp: t, slot }
}

fn setup(amount: u64, spd: u8, days: u8) -> (FocusProgram, FocusCommitment, UserProfile) {
    let mut g = program(10);
    let p = create_user_profile(&mut g, &ALICE, 1).unwrap();
    let c = create_commitment(&mut g, &ALICE, 2, 1, amount, spd, days, T0).unwrap();
    (g, c, p)
}

/// Runs one full session starting at `t`; returns the completed record.
fn run_session(c: &mut FocusCommitment, p: &mut UserProfile, id: u64, t: i64) -> SessionRecord {
    let slot = (t - T0) as u64 * 3;
    let mut s = start_session(c, &ALICE, &COMMITMENT_KEY, 0, id, clock(t, slot)).unwrap();
    complete_session(&mut s, c, p, &ALICE, clock(t + 3300, slot + 8250)).unwrap();
    s
}

fn settle_with(completed: u64) -> u64 {
    let (mut g, mut c, mut p) = setup(1000, 2, 5);
    p.total_sessions_completed = completed;
    claim_rewards(&mut c, &mut p, &mut g, &ALICE, T0 + 5 * DAY).unwrap()
}

#[test]
fn settlement_full_completion_pays_bonus() {
    assert_eq!(settle_with(10), 1100);
}

#[test]
fn settlement_eighty_percent_returns_stake() {
    assert_eq!(settle_with(8), 1000);
}

#[test]
fn settlement_half_returns_three_quarters() {
    assert_eq!(settle_with(5), 750);
}

#[test]
fn settlement_tier_boundaries() {
    assert_eq!(settle_with(9), 1100);
    assert_eq!(settle_with(7), 750);
    assert_eq!(reward_amount(1000, 4, 1, 3, 10), Ok(1000));
    assert_eq!(reward_amount(1000, 4, 1, 2, 10), Ok(750));
    assert_eq!(reward_amount(999, 1, 1, 0, 10), Ok(749));
}

#[test]
fn settlement_bonus_overflow_is_refused() {
    assert_eq!(reward_amount(u64::MAX, 1, 1, 1, 10), Err(FocusError::InsufficientBalance));
    assert_eq!(reward_amount(u64::MAX, 1, 1, 0, 10), Ok((u64::MAX as u128 * 75 / 100) as u64));
}

#[test]
fn settlement_after_lifecycle_updates_all_records() {
    let (mut g, mut c, mut p) = setup(1000, 2, 5);
    assert_eq!(g.total_staked, 1000);
    let mut id = 0u64;
    for day in 0..5i64 {
        for k in 0..2i64 {
            run_session(&mut c, &mut p, id, T0 + day * DAY + k * 7200);
            id += 1;
        }
    }
    assert_eq!(p.total_sessions_completed, 10);
    let released = claim_rewards(&mut c, &mut p, &mut g, &ALICE, T0 + 5 * DAY).unwrap();
    assert_eq!(released, 1100);
    assert!(!c.is_active);
    assert_eq!(p.total_rewards_earned, 1100);
    assert_eq!(g.total_staked, 0);
}

#[test]
fn settlement_twice_is_refused() {
    let (mut g, mut c, mut p) = setup(1000, 2, 5);
    p.total_sessions_completed = 10;
    assert_eq!(claim_rewards(&mut c, &mut p, &mut g, &ALICE, T0 + 5 * DAY), Ok(1100));
    let (c1, p1, g1) = (c, p, g);
    assert_eq!(
        claim_rewards(&mut c, &mut p, &mut g, &ALICE, T0 + 6 * DAY),
        Err(FocusError::CommitmentInactive)
    );
    assert_eq!((c, p, g), (c1, p1, g1));
    assert_eq!(p.total_rewards_earned, 1100);
}

#[test]
fn settlement_before_end_is_refused() {
    let (mut g, mut c, mut p) = setup(1000, 2, 5);
    assert_eq!(
        claim_rewards(&mut c, &mut p, &mut g, &ALICE, T0 + 5 * DAY - 1),
        Err(FocusError::CommitmentNotEnded)
    );
    assert!(c.is_active);
}

#[test]
fn settlement_by_stranger_is_refused() {
    let (mut g, mut c, mut p) = setup(1000, 2, 5);
    assert_eq!(
        claim_rewards(&mut c, &mut p, &mut g, &BOB, T0 + 5 * DAY),
        Err(FocusError::InvalidAuthority)
    );
}

#[test]
fn settlement_registry_underflow_is_refused() {
    let (_, mut c, mut p) = setup(1000, 2, 5);
    let mut g = program(10);
    assert_eq!(
        claim_rewards(&mut c, &mut p, &mut g, &ALICE, T0 + 5 * DAY),
        Err(FocusError::InsufficientBalance)
    );
    assert!(c.is_active);
}

#[test]
fn creation_accepts_every_valid_schedule() {
    for spd in 1..=10u8 {
        for days in 1..=30u8 {
            let mut g = program(10);
            let c = create_commitment(&mut g, &ALICE, 0, 5, 1234, spd, days, T0).unwrap();
            assert_eq!(c.amount_staked, 1234);
            assert_eq!(g.total_staked, 1234);
            assert!(c.is_active);
            assert_eq!(c.sessions_completed_today, 0);
            assert_eq!(c.start_timestamp, T0);
        }
    }
}

#[test]
fn creation_rejects_bad_schedules() {
    let mut g = program(10);
    for spd in [0u8, 11, 255] {
        assert_eq!(
            create_commitment(&mut g, &ALICE, 0, 5, 100, spd, 5, T0),
            Err(FocusError::InvalidSessionCount)
        );
    }
    for days in [0u8, 31, 255] {
        assert_eq!(
            create_commitment(&mut g, &ALICE, 0, 5, 100, 2, days, T0),
            Err(FocusError::InvalidDayCount)
        );
    }
    assert_eq!(
        create_commitment(&mut g, &ALICE, 0, 5, 100, 0, 0, T0),
        Err(FocusError::InvalidSessionCount)
    );
    assert_eq!(g.total_staked, 0);
}

#[test]
fn creation_registry_overflow_is_refused() {
    let mut g = program(10);
    g.total_staked = u64::MAX - 5;
    assert_eq!(
        create_commitment(&mut g, &ALICE, 0, 5, 6, 2, 5, T0),
        Err(FocusError::InsufficientBalance)
    );
    assert_eq!(g.total_staked, u64::MAX - 5);
}

#[test]
fn cooldown_boundary() {
    let (_, mut c, mut p) = setup(1000, 3, 5);
    run_session(&mut c, &mut p, 0, T0);
    let done = T0 + 3300;
    assert_eq!(c.last_session_timestamp, done);
    let before = c;
    assert_eq!(
        start_session(&mut c, &ALICE, &COMMITMENT_KEY, 0, 1, clock(done + 1799, 0)),
        Err(FocusError::SessionTooSoon)
    );
    assert_eq!(c, before);
    let s = start_session(&mut c, &ALICE, &COMMITMENT_KEY, 0, 1, clock(done + 1800, 77)).unwrap();
    assert_eq!(s.start_timestamp, done + 1800);
    assert_eq!(s.verification_slot, 77);
    assert!(!s.completed);
    assert_eq!(s.session_number, 1);
    assert_eq!(s.commitment, COMMITMENT_KEY);
}

#[test]
fn duration_boundary() {
    let (_, mut c, mut p) = setup(1000, 3, 5);
    let mut s = start_session(&mut c, &ALICE, &COMMITMENT_KEY, 0, 0, clock(T0, 100)).unwrap();
    assert_eq!(
        complete_session(&mut s, &mut c, &mut p, &ALICE, clock(T0 + 3299, 100 + 9000)),
        Err(FocusError::SessionNotComplete)
    );
    assert_eq!(
        complete_session(&mut s, &mut c, &mut p, &ALICE, clock(T0 + 3300, 100 + MIN_SESSION_SLOTS - 1)),
        Err(FocusError::SlotVerificationFailed)
    );
    assert_eq!(
        complete_session(&mut s, &mut c, &mut p, &ALICE, clock(T0 + 3300, 50)),
        Err(FocusError::SlotVerificationFailed)
    );
    assert!(!s.completed);
    assert_eq!(
        complete_session(&mut s, &mut c, &mut p, &ALICE, clock(T0 + 3300, 100 + MIN_SESSION_SLOTS)),
        Ok(())
    );
    assert!(s.completed);
    assert_eq!(s.end_timestamp, T0 + 3300);
    assert_eq!(c.sessions_completed_today, 1);
    assert_eq!(p.total_sessions_completed, 1);
    assert_eq!(MIN_SESSION_SLOTS, 8240);
}

#[test]
fn second_completion_is_refused() {
    let (_, mut c, mut p) = setup(1000, 3, 5);
    let mut s = run_session(&mut c, &mut p, 0, T0);
    let (s1, c1, p1) = (s, c, p);
    assert_eq!(
        complete_session(&mut s, &mut c, &mut p, &ALICE, clock(T0 + 9000, 99999)),
        Err(FocusError::SessionAlreadyCompleted)
    );
    assert_eq!((s, c, p), (s1, c1, p1));
}

#[test]
fn streak_counts_consecutive_days() {
    let (_, mut c, mut p) = setup(1000, 2, 30);
    for day in 0..7i64 {
        run_session(&mut c, &mut p, day as u64 * 2, T0 + day * DAY);
        run_session(&mut c, &mut p, day as u64 * 2 + 1, T0 + day * DAY + 7200);
        assert_eq!(p.current_streak, day as u16 + 1);
    }
    assert_eq!(p.best_streak, 7);
}

#[test]
fn streak_resets_after_skipped_day() {
    let (_, mut c, mut p) = setup(1000, 2, 30);
    run_session(&mut c, &mut p, 0, T0);
    run_session(&mut c, &mut p, 1, T0 + DAY);
    assert_eq!(p.current_streak, 2);
    run_session(&mut c, &mut p, 2, T0 + 3 * DAY);
    assert_eq!(p.current_streak, 1);
    assert_eq!(p.best_streak, 2);
}

#[test]
fn streak_same_day_is_untouched() {
    let mut p = UserProfile {
        user: ALICE,
        bump: 0,
        total_sessions_completed: 0,
        total_rewards_earned: 0,
        current_streak: 4,
        best_streak: 6,
        last_active_day: 10 * DAY + 5,
    };
    update_streak(&mut p, 10 * DAY + 80000);
    assert_eq!((p.current_streak, p.best_streak, p.last_active_day), (4, 6, 10 * DAY + 5));
    update_streak(&mut p, 11 * DAY + 10);
    assert_eq!((p.current_streak, p.best_streak, p.last_active_day), (5, 6, 11 * DAY));
    p.current_streak = u16::MAX;
    update_streak(&mut p, 12 * DAY);
    assert_eq!((p.current_streak, p.best_streak), (u16::MAX, u16::MAX));
}

#[test]
fn daily_quota_and_rollover() {
    let (_, mut c, mut p) = setup(1000, 1, 3);
    run_session(&mut c, &mut p, 0, T0);
    assert_eq!(
        start_session(&mut c, &ALICE, &COMMITMENT_KEY, 0, 1, clock(T0 + 9000, 0)),
        Err(FocusError::DailySessionsCompleted)
    );
    let s = start_session(&mut c, &ALICE, &COMMITMENT_KEY, 0, 1, clock(T0 + DAY, 0)).unwrap();
    assert_eq!(s.session_number, 1);
    assert_eq!(c.days_completed, 1);
    assert_eq!(c.sessions_completed_today, 0);
}

#[test]
fn completion_beyond_quota_is_refused() {
    let (_, mut c, mut p) = setup(1000, 1, 3);
    let mut a = start_session(&mut c, &ALICE, &COMMITMENT_KEY, 0, 0, clock(T0, 0)).unwrap();
    let mut b = start_session(&mut c, &ALICE, &COMMITMENT_KEY, 0, 1, clock(T0 + 10, 0)).unwrap();
    assert_eq!(complete_session(&mut a, &mut c, &mut p, &ALICE, clock(T0 + 4000, 9000)), Ok(()));
    assert_eq!(
        complete_session(&mut b, &mut c, &mut p, &ALICE, clock(T0 + 4000, 9000)),
        Err(FocusError::DailySessionsCompleted)
    );
}

#[test]
fn start_refusals() {
    let (mut g, mut c, mut p) = setup(1000, 2, 3);
    assert_eq!(
        start_session(&mut c, &BOB, &COMMITMENT_KEY, 0, 0, clock(T0, 0)),
        Err(FocusError::InvalidAuthority)
    );
    assert_eq!(
        start_session(&mut c, &ALICE, &COMMITMENT_KEY, 0, 0, clock(T0 + 3 * DAY, 0)),
        Err(FocusError::CommitmentEnded)
    );
    assert!(start_session(&mut c, &ALICE, &COMMITMENT_KEY, 0, 0, clock(T0 - 5 * DAY, 0)).is_ok());
    claim_rewards(&mut c, &mut p, &mut g, &ALICE, T0 + 3 * DAY).unwrap();
    assert_eq!(
        start_session(&mut c, &ALICE, &COMMITMENT_KEY, 0, 0, clock(T0, 0)),
        Err(FocusError::CommitmentInactive)
    );
}

#[test]
fn completion_by_stranger_is_refused() {
    let (_, mut c, mut p) = setup(1000, 2, 3);
    let mut s = start_session(&mut c, &ALICE, &COMMITMENT_KEY, 0, 0, clock(T0, 0)).unwrap();
    assert_eq!(
        complete_session(&mut s, &mut c, &mut p, &BOB, clock(T0 + 4000, 9000)),
        Err(FocusError::InvalidAuthority)
    );
}

#[test]
fn completion_counter_overflow_is_refused() {
    let (_, mut c, mut p) = setup(1000, 2, 3);
    p.total_sessions_completed = u64::MAX;
    let mut s = start_session(&mut c, &ALICE, &COMMITMENT_KEY, 0, 0, clock(T0, 0)).unwrap();
    assert_eq!(
        complete_session(&mut s, &mut c, &mut p, &ALICE, clock(T0 + 4000, 9000)),
        Err(FocusError::InsufficientBalance)
    );
    assert!(!s.completed);
}

#[test]
fn profile_creation() {
    let mut g = program(10);
    let p = create_user_profile(&mut g, &BOB, 4).unwrap();
    assert_eq!(g.total_users, 1);
    assert_eq!(p.last_active_day, 0);
    assert_eq!((p.current_streak, p.best_streak, p.total_sessions_completed), (0, 0, 0));
    g.total_users = u64::MAX;
    assert_eq!(create_user_profile(&mut g, &BOB, 4), Err(FocusError::InsufficientBalance));
}

#[test]
fn registry_initialization() {
    let g = program(25);
    assert_eq!(g.reward_rate, 25);
    assert_eq!((g.total_users, g.total_staked), (0, 0));
    assert_eq!(g.focus_token_mint, [2u8; 32]);
}

#[test]
fn day_arithmetic() {
    assert_eq!(get_current_day_timestamp(1_700_000_000), 1_699_920_000);
    assert_eq!(get_current_day_timestamp(86400), 86400);
    assert_eq!(get_current_day_timestamp(-1), 0);
    assert_eq!(get_current_day_timestamp(-86401), -86400);
    assert_eq!(get_current_day_timestamp(i64::MIN), i64::MIN / 86400 * 86400);
    assert_eq!(days_elapsed(T0, T0 + 3 * DAY - 1), 2);
    assert_eq!(days_elapsed(T0, T0 - 10 * DAY), 0);
    assert_eq!(days_elapsed(i64::MIN, i64::MAX), u64::MAX / 86400);
}

#[test]
fn key_comparison() {
    assert!(same_key(&ALICE, &ALICE));
    let mut k = ALICE;
    k[31] = 0;
    assert!(!same_key(&ALICE, &k));
    assert_eq!(FocusError::SessionTooSoon.message(), "not enough time has passed since last session");
}
