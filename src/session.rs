use vstd::prelude::*;

use crate::error::FocusError;
use crate::state::{same_key, AccountKey, Clock, FocusCommitment, SessionRecord, UserProfile};
use crate::time::{day_start, days_between, days_elapsed, get_current_day_timestamp, DAY_SECONDS};

verus! {

/// Least time between one session's completion and the next session's start.
pub const SESSION_COOLDOWN_SECONDS: i64 = 1800;

/// Least length of a session: 25 minutes of focus, 5 of rest, 25 of focus.
pub const SESSION_DURATION_SECONDS: i64 = 3300;

/// The least session length in milliseconds.
pub const SESSION_DURATION_MS: u64 = 3_300_000;

/// Nominal time between two ticks of the tick counter, in milliseconds.
pub const SLOT_PERIOD_MS: u64 = 400;

/// Ticks that a session may fall short of its nominal count.
pub const SLOT_TOLERANCE: u64 = 10;

/// Least number of ticks that a completed session must span.
pub const MIN_SESSION_SLOTS: u64 = SESSION_DURATION_MS / SLOT_PERIOD_MS - SLOT_TOLERANCE;

/// The streak counters after a completion at `now`: a completion on the day
/// after the last active day extends the streak (raising the best one with
/// it), one after a longer gap starts a new streak of one, and one on the same
/// day leaves both as they were.
pub open spec fn streak_update(p: UserProfile, now: i64) -> UserProfile {
    let today = day_start(now as int);
    let last = day_start(p.last_active_day as int);
    if today > last {
        if today - last <= DAY_SECONDS {
            let cur: u16 = if p.current_streak < u16::MAX {
                (p.current_streak + 1) as u16
            } else {
                p.current_streak
            };
            UserProfile {
                current_streak: cur,
                best_streak: if cur > p.best_streak {
                    cur
                } else {
                    p.best_streak
                },
                last_active_day: today as i64,
                ..p
            }
        } else {
            UserProfile { current_streak: 1, last_active_day: today as i64, ..p }
        }
    } else {
        p
    }
}

/// The profile after one more completed session at `now`.
pub open spec fn record_completion(p: UserProfile, now: i64) -> UserProfile {
    streak_update(
        UserProfile { total_sessions_completed: (p.total_sessions_completed + 1) as u64, ..p },
        now,
    )
}

/// The commitment after the lazy day rollover at the start of a session:
/// a later day than the one recorded resets the day's session count.
pub open spec fn rolled_over(c: FocusCommitment, days: int) -> FocusCommitment {
    if days > c.days_completed {
        FocusCommitment { days_completed: days as u8, sessions_completed_today: 0, ..c }
    } else {
        c
    }
}

/// What starting session `session_id` does to its commitment, and the new
/// session's record; or why it is refused. Checks, in order: the caller owns
/// the commitment, it is active, its period has not ended, the day's quota is
/// not yet met, and the cooldown since the last completed session is over.
pub open spec fn start_outcome(
    c: FocusCommitment,
    caller: AccountKey,
    commitment_key: AccountKey,
    bump: u8,
    session_id: u64,
    clock: Clock,
) -> Result<(FocusCommitment, SessionRecord), FocusError> {
    let now = clock.unix_timestamp;
    let days = days_between(c.start_timestamp as int, now as int);
    let rolled = rolled_over(c, days);
    if c.user@ != caller@ {
        Err(FocusError::InvalidAuthority)
    } else if !c.is_active {
        Err(FocusError::CommitmentInactive)
    } else if days >= c.total_days {
        Err(FocusError::CommitmentEnded)
    } else if rolled.sessions_completed_today >= rolled.sessions_per_day {
        Err(FocusError::DailySessionsCompleted)
    } else if c.last_session_timestamp > 0 && now - c.last_session_timestamp < SESSION_COOLDOWN_SECONDS {
        Err(FocusError::SessionTooSoon)
    } else {
        Ok(
            (
                rolled,
                SessionRecord {
                    user: c.user,
                    commitment: commitment_key,
                    bump,
                    session_number: session_id,
                    start_timestamp: now,
                    completed: false,
                    verification_slot: clock.slot,
                    end_timestamp: 0,
                },
            ),
        )
    }
}

/// What completing a session does to it, its commitment and the owner's
/// profile; or why it is refused. Checks, in order: the caller owns both
/// records, the session is not yet completed, 55 minutes have passed on the
/// wall clock, enough ticks have passed on the tick counter, the day's quota
/// has room, and the profile's session counter has room.
pub open spec fn complete_outcome(
    s: SessionRecord,
    c: FocusCommitment,
    p: UserProfile,
    caller: AccountKey,
    clock: Clock,
) -> Result<(SessionRecord, FocusCommitment, UserProfile), FocusError> {
    let now = clock.unix_timestamp;
    if s.user@ != caller@ || c.user@ != caller@ {
        Err(FocusError::InvalidAuthority)
    } else if s.completed {
        Err(FocusError::SessionAlreadyCompleted)
    } else if now - s.start_timestamp < SESSION_DURATION_SECONDS {
        Err(FocusError::SessionNotComplete)
    } else if clock.slot - s.verification_slot < MIN_SESSION_SLOTS {
        Err(FocusError::SlotVerificationFailed)
    } else if c.sessions_completed_today >= c.sessions_per_day {
        Err(FocusError::DailySessionsCompleted)
    } else if p.total_sessions_completed == u64::MAX {
        Err(FocusError::InsufficientBalance)
    } else {
        Ok(
            (
                SessionRecord { completed: true, end_timestamp: now, ..s },
                FocusCommitment {
                    last_session_timestamp: now,
                    sessions_completed_today: (c.sessions_completed_today + 1) as u8,
                    ..c
                },
                record_completion(p, now),
            ),
        )
    }
}

/// Starts session `session_id` of `commitment` at the clock's reading,
/// rolling the commitment over to a new day first when one has begun. Returns
/// the new session's record; on a refusal the commitment is unchanged.
pub fn start_session(
    commitment: &mut FocusCommitment,
    caller: &AccountKey,
    commitment_key: &AccountKey,
    bump: u8,
    session_id: u64,
    clock: Clock,
) -> (r: Result<SessionRecord, FocusError>)
    ensures
        match start_outcome(*old(commitment), *caller, *commitment_key, bump, session_id, clock) {
            Ok((c, s)) => r == Ok::<SessionRecord, FocusError>(s) && *final(commitment) == c,
            Err(e) => r == Err::<SessionRecord, FocusError>(e) && *final(commitment) == *old(
                commitment,
            ),
        },
        old(commitment).wf() ==> final(commitment).wf(),
{
    if !same_key(&commitment.user, caller) {
        return Err(FocusError::InvalidAuthority);
    }
    if !commitment.is_active {
        return Err(FocusError::CommitmentInactive);
    }
    let now = clock.unix_timestamp;
    let days: u64 = days_elapsed(commitment.start_timestamp, now);
    if days >= commitment.total_days as u64 {
        return Err(FocusError::CommitmentEnded);
    }
    let mut days_completed = commitment.days_completed;
    let mut today_count = commitment.sessions_completed_today;
    if days > commitment.days_completed as u64 {
        days_completed = days as u8;
        today_count = 0;
    }
    if today_count >= commitment.sessions_per_day {
        return Err(FocusError::DailySessionsCompleted);
    }
    if commitment.last_session_timestamp > 0 {
        let since: i128 = now as i128 - commitment.last_session_timestamp as i128;
        if since < SESSION_COOLDOWN_SECONDS as i128 {
            return Err(FocusError::SessionTooSoon);
        }
    }
    commitment.days_completed = days_completed;
    commitment.sessions_completed_today = today_count;
    Ok(
        SessionRecord {
            user: commitment.user,
            commitment: *commitment_key,
            bump,
            session_number: session_id,
            start_timestamp: now,
            completed: false,
            verification_slot: clock.slot,
            end_timestamp: 0,
        },
    )
}

/// Applies the streak rules to `profile` for a completion at `now`.
pub fn update_streak(profile: &mut UserProfile, now: i64)
    ensures
        *final(profile) == streak_update(*old(profile), now),
{
    let today = get_current_day_timestamp(now);
    let last = get_current_day_timestamp(profile.last_active_day);
    if today > last {
        let gap: i128 = today as i128 - last as i128;
        if gap <= DAY_SECONDS as i128 {
            if profile.current_streak < u16::MAX {
                profile.current_streak = profile.current_streak + 1;
            }
            if profile.current_streak > profile.best_streak {
                profile.best_streak = profile.current_streak;
            }
        } else {
            profile.current_streak = 1;
        }
        profile.last_active_day = today;
    }
}

/// Completes `session` at the clock's reading: marks it done, counts it for
/// the commitment's day and the owner's profile, and updates the streak. On a
/// refusal nothing changes.
pub fn complete_session(
    session: &mut SessionRecord,
    commitment: &mut FocusCommitment,
    user_profile: &mut UserProfile,
    caller: &AccountKey,
    clock: Clock,
) -> (r: Result<(), FocusError>)
    ensures
        match complete_outcome(*old(session), *old(commitment), *old(user_profile), *caller, clock) {
            Ok((s, c, p)) => {
                &&& r == Ok::<(), FocusError>(())
                &&& *final(session) == s
                &&& *final(commitment) == c
                &&& *final(user_profile) == p
            },
            Err(e) => {
                &&& r == Err::<(), FocusError>(e)
                &&& *final(session) == *old(session)
                &&& *final(commitment) == *old(commitment)
                &&& *final(user_profile) == *old(user_profile)
            },
        },
        old(commitment).wf() ==> final(commitment).wf(),
{
    if !same_key(&session.user, caller) || !same_key(&commitment.user, caller) {
        return Err(FocusError::InvalidAuthority);
    }
    if session.completed {
        return Err(FocusError::SessionAlreadyCompleted);
    }
    let now = clock.unix_timestamp;
    let elapsed: i128 = now as i128 - session.start_timestamp as i128;
    if elapsed < SESSION_DURATION_SECONDS as i128 {
        return Err(FocusError::SessionNotComplete);
    }
    if clock.slot < session.verification_slot || clock.slot - session.verification_slot
        < MIN_SESSION_SLOTS {
        return Err(FocusError::SlotVerificationFailed);
    }
    if commitment.sessions_completed_today >= commitment.sessions_per_day {
        return Err(FocusError::DailySessionsCompleted);
    }
    if user_profile.total_sessions_completed == u64::MAX {
        return Err(FocusError::InsufficientBalance);
    }
    session.completed = true;
    session.end_timestamp = now;
    commitment.last_session_timestamp = now;
    commitment.sessions_completed_today = commitment.sessions_completed_today + 1;
    user_profile.total_sessions_completed = user_profile.total_sessions_completed + 1;
    update_streak(user_profile, now);
    Ok(())
}

} // verus!
