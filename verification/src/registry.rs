//! The companion token registry: a unique-id ownership ledger.
//!
//! The claim-era controller treats the registry as a collaborator reached
//! through a narrow interface: minting rejects a token identifier that was
//! already minted and otherwise records the recipient as the owner.

use crate::assoc::AssocMap;
use crate::store::AccountId;
use vstd::prelude::*;

verus! {

/// What the registry can report back to a caller.
#[derive(Clone, Copy, Debug, PartialEq, Eq, Structural)]
pub enum RegistryError {
    /// The token identifier already has an owner.
    TokenAlreadyMinted,
    /// The token identifier has no owner yet.
    TokenNotMinted,
}

/// An ownership ledger for uniquely identified tokens.
pub struct WizardRegistry {
    wizards: AssocMap<AccountId>,
}

impl View for WizardRegistry {
    type V = Map<u64, AccountId>;

    closed spec fn view(&self) -> Map<u64, AccountId> {
        self.wizards@
    }
}

impl WizardRegistry {
    /// The backing ledger is well formed.
    pub closed spec fn wf(&self) -> bool {
        self.wizards.wf()
    }

    /// Creates an empty registry.
    pub fn new() -> (r: WizardRegistry)
        ensures
            r.wf(),
            r@ == Map::<u64, AccountId>::empty(),
    {
        WizardRegistry { wizards: AssocMap::new() }
    }

    /// Mints the token for the recipient: fails on a duplicate token
    /// identifier, otherwise records the recipient as the owner.
    pub fn mint_wizard(&mut self, recipient: AccountId, token_id: u64) -> (r: Result<
        (),
        RegistryError,
    >)
        requires
            old(self).wf(),
        ensures
            final(self).wf(),
            old(self)@.contains_key(token_id) ==> r == Err::<(), RegistryError>(
                RegistryError::TokenAlreadyMinted,
            ) && final(self)@ == old(self)@,
            !old(self)@.contains_key(token_id) ==> r == Ok::<(), RegistryError>(()) && final(self)@ == old(self)@.insert(token_id, recipient),
    {
        if self.wizards.get(token_id).is_some() {
            return Err(RegistryError::TokenAlreadyMinted);
        }
        self.wizards.insert(token_id, recipient);
        Ok(())
    }

    /// Moves an already-minted token to a new owner: fails if the token was
    /// never minted.
    pub fn transfer(&mut self, to: AccountId, token_id: u64) -> (r: Result<(), RegistryError>)
        requires
            old(self).wf(),
        ensures
            final(self).wf(),
            !old(self)@.contains_key(token_id) ==> r == Err::<(), RegistryError>(
                RegistryError::TokenNotMinted,
            ) && final(self)@ == old(self)@,
            old(self)@.contains_key(token_id) ==> r == Ok::<(), RegistryError>(()) && final(self)@ == old(self)@.insert(token_id, to),
    {
        if self.wizards.get(token_id).is_none() {
            return Err(RegistryError::TokenNotMinted);
        }
        self.wizards.insert(token_id, to);
        Ok(())
    }

    /// Returns the owner of the token, or `None` if it was never minted.
    pub fn owner_of(&self, token_id: u64) -> (r: Option<AccountId>)
        requires
            self.wf(),
        ensures
            r == if self@.contains_key(token_id) {
                Some(self@[token_id])
            } else {
                None::<AccountId>
            },
    {
        self.wizards.get(token_id)
    }
}

} // verus!
