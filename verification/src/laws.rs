//! Laws relating the controller's operations across calls.
//!
//! Each lemma states, over the controller's view and spec functions, a
//! guarantee that spans more than one operation's own contract: what a
//! fresh account observes, what `start` leaves behind, how the countdown
//! runs off block by block, and what a successful `claim` changes.

use crate::controller::Magink;
use crate::profile::Profile;
use crate::store::AccountId;
use vstd::prelude::*;

verus! {

/// An account with no prior `start` has no remaining blocks and no badges;
/// its profile is absent by hypothesis, which is what `get_account_profile`
/// reports as `None`.
pub proof fn lemma_fresh_account(m: Magink, account: AccountId, current_block: u32)
    requires
        !m@.contains_key(account),
    ensures
        m.spec_remaining_for(account, current_block) == 0,
        m.spec_badges_for(account) == 0,
{
}

/// Whatever stood in the caller's profile before, `start(era)` leaves a
/// countdown of exactly `era` blocks from the block at call time and a
/// badge count of zero: immediately after the call the remaining count is
/// the full era, the badge count is zero, and the countdown's origin is the
/// current block.
pub proof fn lemma_start_resets(
    pre: Magink,
    post: Magink,
    caller: AccountId,
    era: u8,
    current_block: u32,
)
    requires
        post@ == pre@.insert(caller, Profile::started(era, current_block)),
    ensures
        post.spec_remaining_for(caller, current_block) == era,
        post.spec_badges_for(caller) == 0,
        post@[caller].claim_era == era,
        post@[caller].start_block == current_block,
{
}

/// While the era is still running, the remaining count falls one for one
/// with the blocks advanced: `b` blocks after the countdown began, with
/// `b` short of the era, exactly `era - b` blocks remain.
pub proof fn lemma_remaining_counts_down(m: Magink, account: AccountId, b: u32)
    requires
        m@.contains_key(account),
        b < m@[account].claim_era,
        m@[account].start_block + b <= u32::MAX,
    ensures
        m.spec_remaining_for(account, (m@[account].start_block + b) as u32)
            == m@[account].claim_era - b,
{
}

/// At exactly the era's length elapsed, and at every block beyond it,
/// nothing remains: the claim has become available.
pub proof fn lemma_remaining_after_era(m: Magink, account: AccountId, current_block: u32)
    requires
        m@.contains_key(account),
        current_block >= m@[account].start_block + m@[account].claim_era,
    ensures
        m.spec_remaining_for(account, current_block) == 0,
{
}

/// A successful `claim` pays out one badge and resets the timer: short of
/// the counter's top, the badge count grows by exactly one, and the
/// countdown restarts at the current block with the era unchanged.
pub proof fn lemma_claim_rewards(pre: Magink, post: Magink, caller: AccountId, current_block: u32)
    requires
        pre@.contains_key(caller),
        pre@[caller].badges_claimed < 255,
        post@ == pre@.insert(caller, pre@[caller].after_claim(current_block)),
    ensures
        post.spec_badges_for(caller) == pre.spec_badges_for(caller) + 1,
        post@[caller].claim_era == pre@[caller].claim_era,
        post@[caller].start_block == current_block,
{
}

} // verus!
