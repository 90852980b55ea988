use vstd::prelude::*;

use crate::state::{AccountKey, FocusProgram};

verus! {

/// A fresh registry with no users and nothing staked, paying `reward_rate`
/// percent on top of the stake for a fully kept commitment.
pub fn initialize_program(
    authority: &AccountKey,
    bump: u8,
    reward_rate: u64,
    focus_token_mint: &AccountKey,
) -> (r: FocusProgram)
    ensures
        r == (FocusProgram {
            authority: *authority,
            bump,
            total_users: 0,
            total_staked: 0,
            reward_rate,
            focus_token_mint: *focus_token_mint,
        }),
{
    FocusProgram {
        authority: *authority,
        bump,
        total_users: 0,
        total_staked: 0,
        reward_rate,
        focus_token_mint: *focus_token_mint,
    }
}

} // verus!
