//! The profile store: the account-to-profile mapping.

use crate::assoc::AssocMap;
use crate::profile::Profile;
use vstd::prelude::*;

verus! {

/// Account identifiers, as supplied by the host environment.
pub type AccountId = u64;

/// A durable association from account identifier to [`Profile`]. Absence of
/// an entry means the account has never called `start`. There are no
/// computed fields and no cross-key constraints; no two accounts' profiles
/// interact.
pub struct ProfileStore {
    map: AssocMap<Profile>,
}

impl View for ProfileStore {
    type V = Map<AccountId, Profile>;

    closed spec fn view(&self) -> Map<AccountId, Profile> {
        self.map@
    }
}

impl ProfileStore {
    /// The backing map is well formed.
    pub closed spec fn wf(&self) -> bool {
        self.map.wf()
    }

    /// Creates an empty store.
    pub fn new() -> (r: ProfileStore)
        ensures
            r.wf(),
            r@ == Map::<AccountId, Profile>::empty(),
    {
        ProfileStore { map: AssocMap::new() }
    }

    /// Replaces any existing profile of the account; no error conditions.
    pub fn insert(&mut self, account: AccountId, profile: Profile)
        requires
            old(self).wf(),
        ensures
            final(self).wf(),
            final(self)@ == old(self)@.insert(account, profile),
    {
        self.map.insert(account, profile);
    }

    /// Returns the account's profile, or `None` if the account has never
    /// called `start`.
    pub fn get(&self, account: AccountId) -> (r: Option<Profile>)
        requires
            self.wf(),
        ensures
            r == if self@.contains_key(account) {
                Some(self@[account])
            } else {
                None::<Profile>
            },
    {
        self.map.get(account)
    }
}

} // verus!
