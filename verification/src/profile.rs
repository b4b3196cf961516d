//! The per-account claim-timer record.

use vstd::prelude::*;

verus! {

/// One account's claim-timer state, created on the account's first `start`
/// and overwritten by every later `start`.
#[derive(Clone, Copy, Debug, PartialEq, Eq, Structural)]
pub struct Profile {
    /// Number of block intervals that must elapse before the next claim.
    pub claim_era: u8,
    /// Block height at which the current countdown began.
    pub start_block: u32,
    /// Number of badges successfully claimed so far.
    pub badges_claimed: u8,
}

impl Profile {
    /// The profile written by `start(era)` at block `current_block`:
    /// countdown begins now, and the badge count is reset to zero.
    pub open spec fn started(era: u8, current_block: u32) -> Profile {
        Profile { claim_era: era, start_block: current_block, badges_claimed: 0 }
    }

    /// The profile written by a successful `claim` at block `current_block`:
    /// the countdown restarts with the same era, and the badge count grows
    /// by one, saturating at the top of its range.
    pub open spec fn after_claim(self, current_block: u32) -> Profile {
        Profile {
            claim_era: self.claim_era,
            start_block: current_block,
            badges_claimed: saturating_inc(self.badges_claimed),
        }
    }

    /// Blocks elapsed since the countdown began. Meaningful only while
    /// `current_block` has not fallen behind `start_block`, which the
    /// monotonicity of block height guarantees.
    pub open spec fn spec_elapsed(self, current_block: u32) -> int {
        current_block - self.start_block
    }

    /// Blocks left in the current era: zero once the era has elapsed,
    /// otherwise the part of the era still to run.
    pub open spec fn spec_remaining(self, current_block: u32) -> int {
        if self.spec_elapsed(current_block) >= self.claim_era {
            0
        } else {
            self.claim_era - self.spec_elapsed(current_block)
        }
    }

    /// Computes the blocks left in the current era.
    pub fn remaining(&self, current_block: u32) -> (r: u8)
        requires
            self.start_block <= current_block,
        ensures
            r as int == self.spec_remaining(current_block),
    {
        let elapsed: u32 = current_block - self.start_block;
        if elapsed >= self.claim_era as u32 {
            0
        } else {
            self.claim_era - (elapsed as u8)
        }
    }
}

/// One more badge, saturating at the top of the counter's range.
pub open spec fn saturating_inc(b: u8) -> u8 {
    if b < 255 {
        (b + 1) as u8
    } else {
        255u8
    }
}

} // verus!
