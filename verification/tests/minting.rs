use magink::Error;
use magink::Magink;
use magink::RegistryError;
use magink::WizardRegistry;
use magink::REQUIRED_BADGES;

const ALICE: u64 = 1;
const BOB: u64 = 2;

/// Claims `n` badges for the account, one block per claim, starting from a
/// zero-length era so every block is claimable.
fn earn_badges(magink: &mut Magink, account: u64, n: u32) {
    magink.start(account, 0, 0);
    for block in 1..=n {
        assert_eq!(Ok(()), magink.claim(account, block));
    }
}

#[test]
fn mint_below_threshold_is_rejected() {
    let mut magink = Magink::new();
    let mut registry = WizardRegistry::new();
    earn_badges(&mut magink, ALICE, REQUIRED_BADGES as u32 - 1);
    assert_eq!(
        Err(Error::InsufficientBadges),
        magink.mint_wizard(ALICE, &mut registry, ALICE, 1)
    );
    // the registry was never called: the token is still unowned
    assert_eq!(None, registry.owner_of(1));
}

#[test]
fn mint_at_threshold_succeeds() {
    let mut magink = Magink::new();
    let mut registry = WizardRegistry::new();
    earn_badges(&mut magink, ALICE, REQUIRED_BADGES as u32);
    assert_eq!(Ok(()), magink.mint_wizard(ALICE, &mut registry, ALICE, 1));
    assert_eq!(Some(ALICE), registry.owner_of(1));
    // minting consumed no badges
    assert_eq!(REQUIRED_BADGES, magink.get_badges(ALICE));
}

#[test]
fn mint_duplicate_token_passes_registry_error_through() {
    let mut magink = Magink::new();
    let mut registry = WizardRegistry::new();
    earn_badges(&mut magink, ALICE, REQUIRED_BADGES as u32 + 3);
    assert_eq!(Ok(()), magink.mint_wizard(ALICE, &mut registry, ALICE, 7));
    assert_eq!(
        Err(Error::Registry(RegistryError::TokenAlreadyMinted)),
        magink.mint_wizard(ALICE, &mut registry, BOB, 7)
    );
    // the failed mint left the ledger unchanged
    assert_eq!(Some(ALICE), registry.owner_of(7));
}

#[test]
fn mint_can_target_another_recipient() {
    let mut magink = Magink::new();
    let mut registry = WizardRegistry::new();
    earn_badges(&mut magink, ALICE, REQUIRED_BADGES as u32);
    assert_eq!(Ok(()), magink.mint_wizard(ALICE, &mut registry, BOB, 42));
    assert_eq!(Some(BOB), registry.owner_of(42));
}

#[test]
fn registry_mint_and_transfer() {
    let mut registry = WizardRegistry::new();
    assert_eq!(None, registry.owner_of(5));
    assert_eq!(Ok(()), registry.mint_wizard(ALICE, 5));
    assert_eq!(Some(ALICE), registry.owner_of(5));
    assert_eq!(
        Err(RegistryError::TokenAlreadyMinted),
        registry.mint_wizard(BOB, 5)
    );
    assert_eq!(Ok(()), registry.transfer(BOB, 5));
    assert_eq!(Some(BOB), registry.owner_of(5));
    assert_eq!(Err(RegistryError::TokenNotMinted), registry.transfer(BOB, 6));
}
