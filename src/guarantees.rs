//! Statements about sequences of operations, proved over the operations'
//! own contracts.
use vstd::prelude::*;

use crate::commitment::claim_outcome;
use crate::error::FocusError;
use crate::session::{
    complete_outcome, record_completion, rolled_over, start_outcome, MIN_SESSION_SLOTS,
    SESSION_COOLDOWN_SECONDS, SESSION_DURATION_SECONDS,
};
use crate::state::{AccountKey, Clock, FocusCommitment, FocusProgram, SessionRecord, UserProfile};
use crate::time::{day_number, day_start, days_between, lemma_day_start_bounds};

verus! {

/// The profile after completions at each of `times`, in order.
pub open spec fn profile_after_completions(p: UserProfile, times: Seq<i64>) -> UserProfile
    decreases times.len(),
{
    if times.len() == 0 {
        p
    } else {
        profile_after_completions(record_completion(p, times[0]), times.drop_first())
    }
}

/// Each of `times` falls on the same calendar day as the one before it or on
/// the next day.
pub open spec fn consecutive_days(times: Seq<i64>) -> bool {
    forall|i: int|
        #![trigger times[i], times[i + 1]]
        0 <= i < times.len() - 1 ==> day_number(times[i + 1] as int) == day_number(times[i] as int)
            || day_number(times[i + 1] as int) == day_number(times[i] as int) + 1
}

proof fn lemma_consecutive_days_tail(times: Seq<i64>)
    requires
        times.len() >= 1,
        consecutive_days(times),
    ensures
        consecutive_days(times.drop_first()),
{
    let tail = times.drop_first();
    assert forall|i: int| #![trigger tail[i], tail[i + 1]] 0 <= i < tail.len() - 1 implies day_number(
        tail[i + 1] as int,
    ) == day_number(tail[i] as int) || day_number(tail[i + 1] as int) == day_number(tail[i] as int)
        + 1 by {
        assert(tail[i] == times[i + 1] && tail[i + 1] == times[i + 2]);
    }
}

proof fn lemma_consecutive_days_ordered(times: Seq<i64>)
    requires
        times.len() >= 1,
        consecutive_days(times),
    ensures
        day_number(times[0] as int) <= day_number(times.last() as int),
    decreases times.len(),
{
    if times.len() > 1 {
        let tail = times.drop_first();
        assert(times[0] == times[0] && times[1] == tail[0]);
        lemma_consecutive_days_tail(times);
        lemma_consecutive_days_ordered(tail);
        assert(tail.last() == times.last());
    }
}

proof fn lemma_streak_continues(q: UserProfile, times: Seq<i64>, base: int)
    requires
        times.len() >= 1,
        q.current_streak == day_number(q.last_active_day as int) - base + 1,
        q.last_active_day as int == day_start(q.last_active_day as int),
        day_number(times[0] as int) == day_number(q.last_active_day as int) || day_number(
            times[0] as int,
        ) == day_number(q.last_active_day as int) + 1,
        consecutive_days(times),
        day_number(times.last() as int) - base + 1 <= u16::MAX,
    ensures
        profile_after_completions(q, times).current_streak == day_number(times.last() as int) - base
            + 1,
        profile_after_completions(q, times).last_active_day as int == day_start(
            times.last() as int,
        ),
    decreases times.len(),
{
    let t0 = times[0];
    lemma_consecutive_days_ordered(times);
    lemma_day_start_bounds(t0 as int);
    lemma_day_start_bounds(q.last_active_day as int);
    let q1 = record_completion(q, t0);
    assert(day_number(q1.last_active_day as int) == day_number(t0 as int));
    assert(q1.current_streak == day_number(t0 as int) - base + 1);
    let tail = times.drop_first();
    assert(profile_after_completions(q, times) == profile_after_completions(q1, tail));
    if tail.len() == 0 {
        assert(times.last() == t0);
        assert(profile_after_completions(q1, tail) == q1);
    } else {
        assert(tail[0] == times[1]);
        lemma_consecutive_days_tail(times);
        assert(tail.last() == times.last());
        lemma_streak_continues(q1, tail, base);
    }
}

/// Completing sessions on consecutive calendar days leaves a streak equal to
/// the number of days covered, and the last of those days as the last active
/// day, when the run begins after a gap of more than a day since the last
/// active day (as for a fresh profile, whose last active day is zero), or on
/// the day after it with no streak yet.
pub proof fn lemma_consecutive_days_streak(p: UserProfile, times: Seq<i64>)
    requires
        times.len() >= 1,
        day_number(times[0] as int) > day_number(p.last_active_day as int) + 1 || (day_number(
            times[0] as int,
        ) == day_number(p.last_active_day as int) + 1 && p.current_streak == 0),
        consecutive_days(times),
        day_number(times.last() as int) - day_number(times[0] as int) + 1 <= u16::MAX,
    ensures
        profile_after_completions(p, times).current_streak == day_number(times.last() as int)
            - day_number(times[0] as int) + 1,
        profile_after_completions(p, times).last_active_day as int == day_start(
            times.last() as int,
        ),
{
    let t0 = times[0];
    let base = day_number(t0 as int);
    lemma_day_start_bounds(t0 as int);
    lemma_day_start_bounds(p.last_active_day as int);
    let p1 = record_completion(p, t0);
    assert(day_number(p1.last_active_day as int) == base);
    assert(p1.current_streak == 1);
    let tail = times.drop_first();
    assert(profile_after_completions(p, times) == profile_after_completions(p1, tail));
    if tail.len() == 0 {
        assert(times.last() == t0);
        assert(profile_after_completions(p1, tail) == p1);
    } else {
        assert(tail[0] == times[1]);
        lemma_consecutive_days_tail(times);
        assert(tail.last() == times.last());
        lemma_streak_continues(p1, tail, base);
    }
}

/// A completion more than one calendar day after the last active day starts
/// the streak over at one.
pub proof fn lemma_skipped_day_resets_streak(p: UserProfile, now: i64)
    requires
        day_number(now as int) > day_number(p.last_active_day as int) + 1,
    ensures
        record_completion(p, now).current_streak == 1,
{
}

/// Once ownership, activity, the period and the day's quota allow a start,
/// starting a session less than 30 minutes after the last completed one is
/// refused for the cooldown, and starting exactly 30 minutes after it succeeds.
pub proof fn lemma_session_cooldown(
    c: FocusCommitment,
    caller: AccountKey,
    commitment_key: AccountKey,
    bump: u8,
    session_id: u64,
    clock: Clock,
)
    requires
        c.user@ == caller@,
        c.is_active,
        days_between(c.start_timestamp as int, clock.unix_timestamp as int) < c.total_days,
        rolled_over(
            c,
            days_between(c.start_timestamp as int, clock.unix_timestamp as int),
        ).sessions_completed_today < c.sessions_per_day,
        c.last_session_timestamp > 0,
    ensures
        clock.unix_timestamp - c.last_session_timestamp < SESSION_COOLDOWN_SECONDS ==> start_outcome(
            c,
            caller,
            commitment_key,
            bump,
            session_id,
            clock,
        ) == Err::<(FocusCommitment, SessionRecord), FocusError>(FocusError::SessionTooSoon),
        clock.unix_timestamp - c.last_session_timestamp == SESSION_COOLDOWN_SECONDS ==> start_outcome(
            c,
            caller,
            commitment_key,
            bump,
            session_id,
            clock,
        ) is Ok,
{
}

/// Completing a session less than 55 minutes after its start always fails;
/// completing it exactly 55 minutes after, with the tick counter agreeing, by
/// its owner, within the day's quota, succeeds.
pub proof fn lemma_session_duration(
    s: SessionRecord,
    c: FocusCommitment,
    p: UserProfile,
    caller: AccountKey,
    clock: Clock,
)
    ensures
        clock.unix_timestamp - s.start_timestamp < SESSION_DURATION_SECONDS ==> complete_outcome(
            s,
            c,
            p,
            caller,
            clock,
        ) is Err,
        s.user@ == caller@ && c.user@ == caller@ && !s.completed && clock.unix_timestamp
            - s.start_timestamp == SESSION_DURATION_SECONDS && clock.slot - s.verification_slot >= MIN_SESSION_SLOTS
            && c.sessions_completed_today < c.sessions_per_day && p.total_sessions_completed
            < u64::MAX ==> complete_outcome(s, c, p, caller, clock) is Ok,
{
}

/// A session that has been completed is refused a second completion, at any
/// reading of the clocks, as already completed.
pub proof fn lemma_complete_once(
    s: SessionRecord,
    c: FocusCommitment,
    p: UserProfile,
    caller: AccountKey,
    first: Clock,
    second: Clock,
)
    requires
        complete_outcome(s, c, p, caller, first) is Ok,
    ensures
        ({
            let (s1, c1, p1) = complete_outcome(s, c, p, caller, first)->Ok_0;
            complete_outcome(s1, c1, p1, caller, second) == Err::<
                (SessionRecord, FocusCommitment, UserProfile),
                FocusError,
            >(FocusError::SessionAlreadyCompleted)
        }),
{
}

/// Completing a session that is already completed is refused as such, at any
/// reading of the clocks, when the caller owns the session and its commitment.
pub proof fn lemma_completed_session_refused(
    s: SessionRecord,
    c: FocusCommitment,
    p: UserProfile,
    caller: AccountKey,
    clock: Clock,
)
    requires
        s.completed,
        s.user@ == caller@,
        c.user@ == caller@,
    ensures
        complete_outcome(s, c, p, caller, clock) == Err::<
            (SessionRecord, FocusCommitment, UserProfile),
            FocusError,
        >(FocusError::SessionAlreadyCompleted),
{
}

/// Settlement of an inactive commitment is always refused, so nothing is
/// released; in particular a settled commitment cannot be settled again, at
/// any later time.
pub proof fn lemma_settle_once(
    c: FocusCommitment,
    p: UserProfile,
    g: FocusProgram,
    caller: AccountKey,
    first: i64,
    second: i64,
)
    ensures
        !c.is_active ==> claim_outcome(c, p, g, caller, second) is Err,
        claim_outcome(c, p, g, caller, first) is Ok ==> ({
            let (c1, p1, g1, amount) = claim_outcome(c, p, g, caller, first)->Ok_0;
            &&& !c1.is_active
            &&& claim_outcome(c1, p1, g1, caller, second) is Err
        }),
{
}

} // verus!
