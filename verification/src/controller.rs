//! The claim-era controller.
//!
//! Every operation receives the caller's account identifier and the current
//! block height from the host environment as plain values; the host samples
//! both once per call and guarantees that block height never decreases.

use crate::profile::Profile;
use crate::registry::RegistryError;
use crate::registry::WizardRegistry;
use crate::store::AccountId;
use crate::store::ProfileStore;
use vstd::prelude::*;

verus! {

/// Badges an account must have accumulated before it may mint a token.
pub const REQUIRED_BADGES: u8 = 9;

/// What a controller operation can report back to a caller.
#[derive(Clone, Copy, Debug, PartialEq, Eq, Structural)]
pub enum Error {
    /// `claim` was attempted before the era elapsed; retry later.
    TooEarlyToClaim,
    /// `claim` was attempted by an account with no profile at all.
    UserNotFound,
    /// `mint_wizard` was attempted below the badge threshold.
    InsufficientBadges,
    /// The registry itself rejected the mint; its verdict passes through
    /// unchanged.
    Registry(RegistryError),
}

/// The controller: owns the profile store and gates the registry's mint.
pub struct Magink {
    user: ProfileStore,
}

impl View for Magink {
    type V = Map<AccountId, Profile>;

    closed spec fn view(&self) -> Map<AccountId, Profile> {
        self.user@
    }
}

impl Magink {
    /// The profile store is well formed.
    pub closed spec fn wf(&self) -> bool {
        self.user.wf()
    }

    /// Blocks left in the account's era: zero for an account with no
    /// profile, otherwise what its profile says.
    pub open spec fn spec_remaining_for(&self, account: AccountId, current_block: u32) -> int {
        if self@.contains_key(account) {
            self@[account].spec_remaining(current_block)
        } else {
            0
        }
    }

    /// Badges of the account: zero for an account with no profile.
    pub open spec fn spec_badges_for(&self, account: AccountId) -> int {
        if self@.contains_key(account) {
            self@[account].badges_claimed as int
        } else {
            0
        }
    }

    /// The account's countdown, if it has one, began at or before the given
    /// block. Monotonic block height keeps this true for every block the
    /// host hands in after the countdown was started.
    pub open spec fn block_in_range(&self, account: AccountId, current_block: u32) -> bool {
        self@.contains_key(account) ==> self@[account].start_block <= current_block
    }

    /// Creates a controller with an empty profile store.
    pub fn new() -> (r: Magink)
        ensures
            r.wf(),
            r@ == Map::<AccountId, Profile>::empty(),
    {
        Magink { user: ProfileStore::new() }
    }

    /// (Re)starts the caller's claiming era: the caller's profile is
    /// overwritten with a fresh countdown of `era` blocks and a badge count
    /// of zero, whatever stood there before. No failure conditions.
    pub fn start(&mut self, caller: AccountId, era: u8, current_block: u32)
        requires
            old(self).wf(),
        ensures
            final(self).wf(),
            final(self)@ == old(self)@.insert(caller, Profile::started(era, current_block)),
    {
        let profile = Profile { claim_era: era, start_block: current_block, badges_claimed: 0 };
        self.user.insert(caller, profile);
    }

    /// Claims a badge once the era has elapsed: the badge count grows by
    /// one (saturating at the top of its range) and the countdown restarts
    /// at the current block. Before the era has elapsed the claim is
    /// rejected and nothing changes; an account that never started is
    /// rejected as unknown.
    pub fn claim(&mut self, caller: AccountId, current_block: u32) -> (r: Result<(), Error>)
        requires
            old(self).wf(),
            old(self).block_in_range(caller, current_block),
        ensures
            final(self).wf(),
            old(self).spec_remaining_for(caller, current_block) > 0 ==> r == Err::<(), Error>(
                Error::TooEarlyToClaim,
            ) && final(self)@ == old(self)@,
            old(self).spec_remaining_for(caller, current_block) == 0 && !old(self)@.contains_key(
                caller,
            ) ==> r == Err::<(), Error>(Error::UserNotFound) && final(self)@ == old(self)@,
            old(self).spec_remaining_for(caller, current_block) == 0 && old(self)@.contains_key(
                caller,
            ) ==> r == Ok::<(), Error>(()) && final(self)@ == old(self)@.insert(
                caller,
                old(self)@[caller].after_claim(current_block),
            ),
    {
        if self.get_remaining(caller, current_block) != 0 {
            return Err(Error::TooEarlyToClaim);
        }
        let profile = match self.get_profile(caller) {
            Some(profile) => profile,
            None => {
                return Err(Error::UserNotFound);
            },
        };
        let badges = if profile.badges_claimed < 255 {
            profile.badges_claimed + 1
        } else {
            255
        };
        let updated = Profile {
            claim_era: profile.claim_era,
            start_block: current_block,
            badges_claimed: badges,
        };
        self.user.insert(caller, updated);
        Ok(())
    }

    /// Returns the remaining blocks in the caller's era.
    pub fn get_remaining(&self, caller: AccountId, current_block: u32) -> (r: u8)
        requires
            self.wf(),
            self.block_in_range(caller, current_block),
        ensures
            r as int == self.spec_remaining_for(caller, current_block),
    {
        self.get_remaining_for(caller, current_block)
    }

    /// Returns the remaining blocks in the era of the given account.
    pub fn get_remaining_for(&self, account: AccountId, current_block: u32) -> (r: u8)
        requires
            self.wf(),
            self.block_in_range(account, current_block),
        ensures
            r as int == self.spec_remaining_for(account, current_block),
    {
        match self.user.get(account) {
            Some(profile) => profile.remaining(current_block),
            None => 0,
        }
    }

    /// Returns the profile of the caller.
    pub fn get_profile(&self, caller: AccountId) -> (r: Option<Profile>)
        requires
            self.wf(),
        ensures
            r == if self@.contains_key(caller) {
                Some(self@[caller])
            } else {
                None::<Profile>
            },
    {
        self.user.get(caller)
    }

    /// Returns the profile of the given account.
    pub fn get_account_profile(&self, account: AccountId) -> (r: Option<Profile>)
        requires
            self.wf(),
        ensures
            r == if self@.contains_key(account) {
                Some(self@[account])
            } else {
                None::<Profile>
            },
    {
        self.user.get(account)
    }

    /// Returns the badge count of the caller.
    pub fn get_badges(&self, caller: AccountId) -> (r: u8)
        requires
            self.wf(),
        ensures
            r as int == self.spec_badges_for(caller),
    {
        match self.get_profile(caller) {
            Some(profile) => profile.badges_claimed,
            None => 0,
        }
    }

    /// Returns the badge count of the given account.
    pub fn get_badges_for(&self, account: AccountId) -> (r: u8)
        requires
            self.wf(),
        ensures
            r as int == self.spec_badges_for(account),
    {
        match self.get_account_profile(account) {
            Some(profile) => profile.badges_claimed,
            None => 0,
        }
    }

    /// Mints a token for `to` in the registry, gated on the caller having
    /// accumulated at least [`REQUIRED_BADGES`] badges. Below the threshold
    /// no registry call is made and the registry is untouched; at or above
    /// it, exactly one mint is issued for `(to, token_id)` and the
    /// registry's own verdict passes through unchanged. Badge state is not
    /// consumed: this operation only checks the threshold.
    pub fn mint_wizard(
        &self,
        caller: AccountId,
        registry: &mut WizardRegistry,
        to: AccountId,
        token_id: u64,
    ) -> (r: Result<(), Error>)
        requires
            self.wf(),
            old(registry).wf(),
        ensures
            final(registry).wf(),
            self.spec_badges_for(caller) < REQUIRED_BADGES ==> r == Err::<(), Error>(
                Error::InsufficientBadges,
            ) && final(registry)@ == old(registry)@,
            self.spec_badges_for(caller) >= REQUIRED_BADGES && old(registry)@.contains_key(
                token_id,
            ) ==> r == Err::<(), Error>(Error::Registry(RegistryError::TokenAlreadyMinted)) && final(registry)@ == old(registry)@,
            self.spec_badges_for(caller) >= REQUIRED_BADGES && !old(registry)@.contains_key(
                token_id,
            ) ==> r == Ok::<(), Error>(()) && final(registry)@ == old(registry)@.insert(
                token_id,
                to,
            ),
    {
        if self.get_badges(caller) < REQUIRED_BADGES {
            return Err(Error::InsufficientBadges);
        }
        match registry.mint_wizard(to, token_id) {
            Ok(()) => Ok(()),
            Err(e) => Err(Error::Registry(e)),
        }
    }
}

} // verus!
