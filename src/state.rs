use vstd::prelude::*;

verus! {

/// A 32-byte account identity (a user, a mint, or a record's address).
pub type AccountKey = [u8; 32];

/// Whether two identities are byte-for-byte the same.
pub fn same_key(a: &AccountKey, b: &AccountKey) -> (r: bool)
    ensures
        r == (a@ == b@),
{
    let mut i: usize = 0;
    while i < 32
        invariant
            0 <= i <= 32,
            a@.len() == 32,
            b@.len() == 32,
            forall|j: int| 0 <= j < i ==> a@[j] == b@[j],
        decreases 32 - i,
    {
        if a[i] != b[i] {
            return false;
        }
        i = i + 1;
    }
    assert(a@ =~= b@);
    true
}

/// The program-wide registry: reward rate and the total currently staked.
#[derive(Clone, Copy, Debug, PartialEq, Eq)]
pub struct FocusProgram {
    pub authority: AccountKey,
    pub bump: u8,
    pub total_users: u64,
    pub total_staked: u64,
    /// Bonus percentage paid on top of the stake for a fully kept commitment.
    pub reward_rate: u64,
    pub focus_token_mint: AccountKey,
}

/// One user's pledge of `sessions_per_day` sessions for `total_days` days.
#[derive(Clone, Copy, Debug, PartialEq, Eq)]
pub struct FocusCommitment {
    pub user: AccountKey,
    pub bump: u8,
    pub commitment_id: u64,
    pub amount_staked: u64,
    pub sessions_per_day: u8,
    pub total_days: u8,
    pub start_timestamp: i64,
    pub days_completed: u8,
    pub is_active: bool,
    pub last_session_timestamp: i64,
    pub sessions_completed_today: u8,
}

impl FocusCommitment {
    /// The schedule bounds and the progress counters' limits.
    pub open spec fn wf(&self) -> bool {
        &&& 1 <= self.sessions_per_day <= 10
        &&& 1 <= self.total_days <= 30
        &&& self.days_completed < self.total_days
        &&& self.sessions_completed_today <= self.sessions_per_day
    }
}

/// One attempted work session of a commitment.
#[derive(Clone, Copy, Debug, PartialEq, Eq)]
pub struct SessionRecord {
    pub user: AccountKey,
    pub commitment: AccountKey,
    pub bump: u8,
    pub session_number: u64,
    pub start_timestamp: i64,
    pub completed: bool,
    /// The tick counter's value when the session started.
    pub verification_slot: u64,
    pub end_timestamp: i64,
}

/// A user's counters across all of their commitments.
#[derive(Clone, Copy, Debug, PartialEq, Eq)]
pub struct UserProfile {
    pub user: AccountKey,
    pub bump: u8,
    pub total_sessions_completed: u64,
    pub total_rewards_earned: u64,
    pub current_streak: u16,
    pub best_streak: u16,
    /// Timestamp of the last day on which a session was completed.
    pub last_active_day: i64,
}

/// A snapshot of the two clocks, read once when an operation begins.
#[derive(Clone, Copy, Debug, PartialEq, Eq)]
pub struct Clock {
    /// Wall-clock time in seconds.
    pub unix_timestamp: i64,
    /// The monotonic tick counter.
    pub slot: u64,
}

} // verus!
