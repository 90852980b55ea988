use vstd::prelude::*;

verus! {

/// Every way an operation on a commitment, a session or a profile can be refused.
#[derive(Clone, Copy, Debug, PartialEq, Eq, Structural)]
pub enum FocusError {
    InvalidSessionCount,
    InvalidDayCount,
    CommitmentInactive,
    CommitmentEnded,
    DailySessionsCompleted,
    SessionTooSoon,
    SessionAlreadyCompleted,
    SessionNotComplete,
    SlotVerificationFailed,
    CommitmentNotEnded,
    InsufficientBalance,
    InvalidAuthority,
}

/// The text that describes each refusal.
pub open spec fn error_message(e: FocusError) -> Seq<char> {
    match e {
        FocusError::InvalidSessionCount => "invalid number of sessions per day"@,
        FocusError::InvalidDayCount => "invalid number of days for commitment"@,
        FocusError::CommitmentInactive => "commitment is no longer active"@,
        FocusError::CommitmentEnded => "commitment period has ended"@,
        FocusError::DailySessionsCompleted => "all daily sessions are already completed"@,
        FocusError::SessionTooSoon => "not enough time has passed since last session"@,
        FocusError::SessionAlreadyCompleted => "session is already marked as completed"@,
        FocusError::SessionNotComplete => "session duration requirement not met"@,
        FocusError::SlotVerificationFailed => "slot-based verification failed"@,
        FocusError::CommitmentNotEnded => "commitment period has not ended yet"@,
        FocusError::InsufficientBalance => "insufficient balance"@,
        FocusError::InvalidAuthority => "invalid authority"@,
    }
}

impl FocusError {
    /// The human-readable reason for the refusal.
    pub fn message(&self) -> (r: &'static str)
        ensures
            r@ == error_message(*self),
    {
        match self {
            FocusError::InvalidSessionCount => "invalid number of sessions per day",
            FocusError::InvalidDayCount => "invalid number of days for commitment",
            FocusError::CommitmentInactive => "commitment is no longer active",
            FocusError::CommitmentEnded => "commitment period has ended",
            FocusError::DailySessionsCompleted => "all daily sessions are already completed",
            FocusError::SessionTooSoon => "not enough time has passed since last session",
            FocusError::SessionAlreadyCompleted => "session is already marked as completed",
            FocusError::SessionNotComplete => "session duration requirement not met",
            FocusError::SlotVerificationFailed => "slot-based verification failed",
            FocusError::CommitmentNotEnded => "commitment period has not ended yet",
            FocusError::InsufficientBalance => "insufficient balance",
            FocusError::InvalidAuthority => "invalid authority",
        }
    }
}

} // verus!
