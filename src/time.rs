use vstd::prelude::*;

verus! {

/// Length of a calendar day in seconds.
pub const DAY_SECONDS: i64 = 86400;

/// The number of the day holding `t`: `t` divided by the day length, with the
/// quotient rounded toward zero.
pub open spec fn day_number(t: int) -> int {
    if t >= 0 {
        t / 86400
    } else {
        -((-t) / 86400)
    }
}

/// The start of the day holding `t`.
pub open spec fn day_start(t: int) -> int {
    day_number(t) * 86400
}

/// Whole days from `start` to `now`; none when `now` is not after `start`.
pub open spec fn days_between(start: int, now: int) -> int {
    if now <= start {
        0
    } else {
        (now - start) / 86400
    }
}

/// The timestamp `timestamp` truncated to its day boundary.
pub fn get_current_day_timestamp(timestamp: i64) -> (r: i64)
    ensures
        r == day_start(timestamp as int),
{
    if timestamp >= 0 {
        let d: i64 = timestamp / DAY_SECONDS;
        assert(0 <= d * 86400 <= timestamp) by (nonlinear_arith)
            requires d == timestamp / 86400, timestamp >= 0;
        d * DAY_SECONDS
    } else {
        let m: u64 = (0i128 - timestamp as i128) as u64;
        let d: u64 = m / 86400;
        assert(0 <= d * 86400 <= m) by (nonlinear_arith)
            requires d == m / 86400;
        let back: u64 = d * 86400;
        (0i128 - back as i128) as i64
    }
}

/// Whole days elapsed from `start` to `now` (zero when the clock reads earlier).
pub fn days_elapsed(start: i64, now: i64) -> (r: u64)
    ensures
        r == days_between(start as int, now as int),
{
    if now <= start {
        0
    } else {
        let diff: u64 = (now as i128 - start as i128) as u64;
        diff / 86400
    }
}

/// A day's start lies in that same day, and no farther from zero than `t`.
pub proof fn lemma_day_start_bounds(t: int)
    ensures
        day_number(day_start(t)) == day_number(t),
        t >= 0 ==> 0 <= day_start(t) <= t,
        t < 0 ==> t <= day_start(t) <= 0,
{
    let n = day_number(t);
    if t >= 0 {
        assert(0 <= (t / 86400) * 86400 <= t) by (nonlinear_arith)
            requires t >= 0;
        assert((n * 86400) / 86400 == n) by (nonlinear_arith)
            requires n >= 0;
    } else {
        let m = -t;
        assert(0 <= (m / 86400) * 86400 <= m) by (nonlinear_arith)
            requires m > 0;
        let k = m / 86400;
        assert((k * 86400) / 86400 == k) by (nonlinear_arith)
            requires k >= 0;
        assert(-(n * 86400) == k * 86400);
    }
}

} // verus!
