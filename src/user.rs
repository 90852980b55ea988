use vstd::prelude::*;

use crate::error::FocusError;
use crate::state::{AccountKey, FocusProgram, UserProfile};

verus! {

/// A fresh profile for `user`, with every counter and its last active day at
/// zero; the registry counts one more user. Refused, with the
/// registry unchanged, when its user count is already at its largest value.
pub fn create_user_profile(
    program: &mut FocusProgram,
    user: &AccountKey,
    bump: u8,
) -> (r: Result<UserProfile, FocusError>)
    ensures
        old(program).total_users < u64::MAX ==> r == Ok::<UserProfile, FocusError>(
            (UserProfile {
                user: *user,
                bump,
                total_sessions_completed: 0,
                total_rewards_earned: 0,
                current_streak: 0,
                best_streak: 0,
                last_active_day: 0,
            }),
        ) && *final(program) == (FocusProgram {
            total_users: (old(program).total_users + 1) as u64,
            ..*old(program)
        }),
        old(program).total_users == u64::MAX ==> r == Err::<UserProfile, FocusError>(
            FocusError::InsufficientBalance,
        ) && *final(program) == *old(program),
{
    let users = match program.total_users.checked_add(1) {
        Some(v) => v,
        None => {
            return Err(FocusError::InsufficientBalance);
        },
    };
    program.total_users = users;
    Ok(
        UserProfile {
            user: *user,
            bump,
            total_sessions_completed: 0,
            total_rewards_earned: 0,
            current_streak: 0,
            best_streak: 0,
            last_active_day: 0,
        },
    )
}

} // verus!
