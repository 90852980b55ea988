use vstd::prelude::*;

use crate::error::FocusError;
use crate::state::{same_key, AccountKey, FocusCommitment, FocusProgram, UserProfile};
use crate::time::{days_between, days_elapsed};

verus! {

/// Most sessions a commitment may require per day.
pub const MAX_SESSIONS_PER_DAY: u8 = 10;

/// Longest commitment, in days.
pub const MAX_TOTAL_DAYS: u8 = 30;

/// Percentage of the stake returned when under three quarters of the sessions were done.
pub const PARTIAL_REFUND_PERCENT: u64 = 75;

/// Whether `completed` out of `expected` sessions reaches a ratio of 0.90.
pub open spec fn reaches_bonus_tier(completed: int, expected: int) -> bool {
    10 * completed >= 9 * expected
}

/// Whether `completed` out of `expected` sessions reaches a ratio of 0.75.
pub open spec fn reaches_refund_tier(completed: int, expected: int) -> bool {
    4 * completed >= 3 * expected
}

/// What settlement releases for a stake, by the share of expected sessions done:
/// stake plus `rate` percent from 0.90 up, the stake from 0.75 up, 75 percent below.
pub open spec fn release_amount(stake: int, expected: int, completed: int, rate: int) -> int {
    if reaches_bonus_tier(completed, expected) {
        stake + stake * rate / 100
    } else if reaches_refund_tier(completed, expected) {
        stake
    } else {
        stake * 75 / 100
    }
}

/// Sessions a commitment expects over its whole period.
pub open spec fn expected_sessions(c: FocusCommitment) -> int {
    c.sessions_per_day * c.total_days
}

/// The tiered amount released for `stake` when `completed` sessions are
/// counted against `sessions_per_day * total_days` expected ones; refused when
/// it does not fit in a `u64`.
pub fn reward_amount(
    stake: u64,
    sessions_per_day: u8,
    total_days: u8,
    completed: u64,
    reward_rate: u64,
) -> (r: Result<u64, FocusError>)
    ensures
        ({
            let amount = release_amount(
                stake as int,
                sessions_per_day * total_days,
                completed as int,
                reward_rate as int,
            );
            &&& amount <= u64::MAX ==> r == Ok::<u64, FocusError>(amount as u64)
            &&& amount > u64::MAX ==> r == Err::<u64, FocusError>(FocusError::InsufficientBalance)
        }),
{
    let spd: u64 = sessions_per_day as u64;
    let td: u64 = total_days as u64;
    assert(spd * td <= 255 * 255) by (nonlinear_arith)
        requires spd <= 255, td <= 255;
    let expected: u64 = spd * td;
    let done10: u128 = completed as u128 * 10;
    let expected9: u128 = expected as u128 * 9;
    let expected3: u128 = expected as u128 * 3;
    let done4: u128 = completed as u128 * 4;
    if done10 >= expected9 {
        let s: u128 = stake as u128;
        let k: u128 = reward_rate as u128;
        assert(s * k <= 0xffff_ffff_ffff_ffffu128 * 0xffff_ffff_ffff_ffffu128) by (nonlinear_arith)
            requires s <= 0xffff_ffff_ffff_ffffu128, k <= 0xffff_ffff_ffff_ffffu128;
        let bonus: u128 = s * k / 100;
        let total: u128 = s + bonus;
        if total > u64::MAX as u128 {
            Err(FocusError::InsufficientBalance)
        } else {
            Ok(total as u64)
        }
    } else if done4 >= expected3 {
        Ok(stake)
    } else {
        let part: u128 = stake as u128 * 75 / 100;
        Ok(part as u64)
    }
}

/// What settlement does to a commitment, its owner's profile and the registry,
/// with the amount released to the owner; or why it is refused. Checks, in
/// order: the caller owns the commitment, its period is over, it is still active.
/// The share of sessions done counts every session the profile has completed,
/// across all of the owner's commitments, against this commitment's expected
/// sessions: a user with several commitments at once raises each one's share
/// with the others' sessions.
pub open spec fn claim_outcome(
    c: FocusCommitment,
    p: UserProfile,
    g: FocusProgram,
    caller: AccountKey,
    now: i64,
) -> Result<(FocusCommitment, UserProfile, FocusProgram, u64), FocusError> {
    if c.user@ != caller@ {
        Err(FocusError::InvalidAuthority)
    } else if days_between(c.start_timestamp as int, now as int) < c.total_days {
        Err(FocusError::CommitmentNotEnded)
    } else if !c.is_active {
        Err(FocusError::CommitmentInactive)
    } else {
        let amount = release_amount(
            c.amount_staked as int,
            expected_sessions(c),
            p.total_sessions_completed as int,
            g.reward_rate as int,
        );
        if amount > u64::MAX || p.total_rewards_earned + amount > u64::MAX || g.total_staked
            < c.amount_staked {
            Err(FocusError::InsufficientBalance)
        } else {
            Ok(
                (
                    FocusCommitment { is_active: false, ..c },
                    UserProfile {
                        total_rewards_earned: (p.total_rewards_earned + amount) as u64,
                        ..p
                    },
                    FocusProgram { total_staked: (g.total_staked - c.amount_staked) as u64, ..g },
                    amount as u64,
                ),
            )
        }
    }
}

/// Settles an ended commitment: deactivates it, credits the released amount
/// to the profile's rewards, takes the stake off the registry's total, and
/// returns the amount that the vault is to release to the owner. On any
/// refusal nothing changes. The completion share is taken from the profile's
/// total over all of the owner's commitments, not from this commitment alone.
pub fn claim_rewards(
    commitment: &mut FocusCommitment,
    user_profile: &mut UserProfile,
    program: &mut FocusProgram,
    caller: &AccountKey,
    now: i64,
) -> (r: Result<u64, FocusError>)
    ensures
        match claim_outcome(*old(commitment), *old(user_profile), *old(program), *caller, now) {
            Ok((c, p, g, amount)) => {
                &&& r == Ok::<u64, FocusError>(amount)
                &&& *final(commitment) == c
                &&& *final(user_profile) == p
                &&& *final(program) == g
            },
            Err(e) => {
                &&& r == Err::<u64, FocusError>(e)
                &&& *final(commitment) == *old(commitment)
                &&& *final(user_profile) == *old(user_profile)
                &&& *final(program) == *old(program)
            },
        },
{
    if !same_key(&commitment.user, caller) {
        return Err(FocusError::InvalidAuthority);
    }
    let days: u64 = days_elapsed(commitment.start_timestamp, now);
    if days < commitment.total_days as u64 {
        return Err(FocusError::CommitmentNotEnded);
    }
    if !commitment.is_active {
        return Err(FocusError::CommitmentInactive);
    }
    let amount = match reward_amount(
        commitment.amount_staked,
        commitment.sessions_per_day,
        commitment.total_days,
        user_profile.total_sessions_completed,
        program.reward_rate,
    ) {
        Ok(a) => a,
        Err(e) => {
            return Err(e);
        },
    };
    let rewards = match user_profile.total_rewards_earned.checked_add(amount) {
        Some(v) => v,
        None => {
            return Err(FocusError::InsufficientBalance);
        },
    };
    let staked = match program.total_staked.checked_sub(commitment.amount_staked) {
        Some(v) => v,
        None => {
            return Err(FocusError::InsufficientBalance);
        },
    };
    commitment.is_active = false;
    user_profile.total_rewards_earned = rewards;
    program.total_staked = staked;
    Ok(amount)
}

/// Opens a commitment of `amount` for `sessions_per_day` sessions over
/// `total_days` days, starting at `now`, and adds the stake to the registry's
/// total. The vault is to receive exactly the returned record's `amount_staked`.
pub fn create_commitment(
    program: &mut FocusProgram,
    user: &AccountKey,
    bump: u8,
    commitment_id: u64,
    amount: u64,
    sessions_per_day: u8,
    total_days: u8,
    now: i64,
) -> (r: Result<FocusCommitment, FocusError>)
    ensures
        !(1 <= sessions_per_day <= 10) ==> r == Err::<FocusCommitment, FocusError>(
            FocusError::InvalidSessionCount,
        ),
        1 <= sessions_per_day <= 10 && !(1 <= total_days <= 30) ==> r == Err::<
            FocusCommitment,
            FocusError,
        >(FocusError::InvalidDayCount),
        1 <= sessions_per_day <= 10 && 1 <= total_days <= 30 && old(program).total_staked + amount
            > u64::MAX ==> r == Err::<FocusCommitment, FocusError>(FocusError::InsufficientBalance),
        1 <= sessions_per_day <= 10 && 1 <= total_days <= 30 && old(program).total_staked + amount
            <= u64::MAX ==> r == Ok::<FocusCommitment, FocusError>(
            (FocusCommitment {
                user: *user,
                bump,
                commitment_id,
                amount_staked: amount,
                sessions_per_day,
                total_days,
                start_timestamp: now,
                days_completed: 0,
                is_active: true,
                last_session_timestamp: 0,
                sessions_completed_today: 0,
            }),
        ),
        r is Ok ==> r->Ok_0.wf(),
        r is Ok ==> *final(program) == (FocusProgram {
            total_staked: (old(program).total_staked + amount) as u64,
            ..*old(program)
        }),
        r is Err ==> *final(program) == *old(program),
{
    if sessions_per_day == 0 || sessions_per_day > MAX_SESSIONS_PER_DAY {
        return Err(FocusError::InvalidSessionCount);
    }
    if total_days == 0 || total_days > MAX_TOTAL_DAYS {
        return Err(FocusError::InvalidDayCount);
    }
    let staked = match program.total_staked.checked_add(amount) {
        Some(v) => v,
        None => {
            return Err(FocusError::InsufficientBalance);
        },
    };
    program.total_staked = staked;
    Ok(
        FocusCommitment {
            user: *user,
            bump,
            commitment_id,
            amount_staked: amount,
            sessions_per_day,
            total_days,
            start_timestamp: now,
            days_completed: 0,
            is_active: true,
            last_session_timestamp: 0,
            sessions_completed_today: 0,
        },
    )
}

} // verus!
