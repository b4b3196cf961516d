use magink::Error;
use magink::Magink;
use magink::Profile;

const ALICE: u64 = 1;
const BOB: u64 = 2;

#[test]
fn start_works() {
    let mut magink = Magink::new();
    let mut block: u32 = 0;
    magink.start(ALICE, 10, block);
    assert_eq!(10, magink.get_remaining(ALICE, block));
    block += 1;
    assert_eq!(9, magink.get_remaining(ALICE, block));
}

#[test]
fn claim_works() {
    const ERA: u32 = 10;
    let mut magink = Magink::new();
    let mut block: u32 = 0;
    magink.start(ALICE, ERA as u8, block);
    block += ERA - 1;
    assert_eq!(1, magink.get_remaining(ALICE, block));

    // claim fails, too early
    assert_eq!(Err(Error::TooEarlyToClaim), magink.claim(ALICE, block));

    // claim succeeds
    block += 1;
    assert_eq!(Ok(()), magink.claim(ALICE, block));
    assert_eq!(1, magink.get_badges(ALICE));
    assert_eq!(1, magink.get_badges_for(ALICE));
    assert_eq!(1, magink.get_badges(ALICE));
    assert_eq!(10, magink.get_remaining(ALICE, block));

    // claim fails, too early
    assert_eq!(Err(Error::TooEarlyToClaim), magink.claim(ALICE, block));
    block += 1;
    assert_eq!(9, magink.get_remaining(ALICE, block));
    assert_eq!(Err(Error::TooEarlyToClaim), magink.claim(ALICE, block));
}

#[test]
fn fresh_account_sees_nothing() {
    let magink = Magink::new();
    assert_eq!(0, magink.get_remaining(ALICE, 0));
    assert_eq!(0, magink.get_remaining_for(BOB, 123));
    assert_eq!(0, magink.get_badges(ALICE));
    assert_eq!(0, magink.get_badges_for(BOB));
    assert_eq!(None, magink.get_profile(ALICE));
    assert_eq!(None, magink.get_account_profile(BOB));
}

#[test]
fn remaining_counts_down_to_zero() {
    const ERA: u8 = 25;
    let mut magink = Magink::new();
    let start_block: u32 = 1000;
    magink.start(ALICE, ERA, start_block);
    for b in 0..ERA as u32 {
        assert_eq!(ERA - b as u8, magink.get_remaining(ALICE, start_block + b));
    }
    assert_eq!(0, magink.get_remaining(ALICE, start_block + ERA as u32));
    assert_eq!(0, magink.get_remaining(ALICE, start_block + ERA as u32 + 1));
    assert_eq!(0, magink.get_remaining(ALICE, u32::MAX));
}

#[test]
fn zero_era_is_immediately_claimable() {
    let mut magink = Magink::new();
    magink.start(ALICE, 0, 5);
    assert_eq!(0, magink.get_remaining(ALICE, 5));
    assert_eq!(Ok(()), magink.claim(ALICE, 5));
    assert_eq!(1, magink.get_badges(ALICE));
}

#[test]
fn claim_without_profile_is_user_not_found() {
    let mut magink = Magink::new();
    assert_eq!(Err(Error::UserNotFound), magink.claim(ALICE, 7));
    assert_eq!(None, magink.get_profile(ALICE));
}

#[test]
fn start_resets_timer_and_badges() {
    let mut magink = Magink::new();
    magink.start(ALICE, 3, 0);
    assert_eq!(Ok(()), magink.claim(ALICE, 3));
    assert_eq!(Ok(()), magink.claim(ALICE, 6));
    assert_eq!(2, magink.get_badges(ALICE));

    // restarting discards the accumulated badges and restarts the countdown
    magink.start(ALICE, 8, 100);
    assert_eq!(0, magink.get_badges(ALICE));
    assert_eq!(8, magink.get_remaining(ALICE, 100));
    assert_eq!(
        Some(Profile { claim_era: 8, start_block: 100, badges_claimed: 0 }),
        magink.get_profile(ALICE)
    );
}

#[test]
fn accounts_are_isolated() {
    let mut magink = Magink::new();
    magink.start(ALICE, 4, 0);
    magink.start(BOB, 9, 0);
    assert_eq!(Ok(()), magink.claim(ALICE, 4));
    assert_eq!(1, magink.get_badges_for(ALICE));
    assert_eq!(0, magink.get_badges_for(BOB));
    assert_eq!(9, magink.get_remaining_for(BOB, 0));
}

#[test]
fn badge_counter_saturates() {
    let mut magink = Magink::new();
    let mut block: u32 = 0;
    magink.start(ALICE, 0, block);
    for _ in 0..255 {
        block += 1;
        assert_eq!(Ok(()), magink.claim(ALICE, block));
    }
    assert_eq!(255, magink.get_badges(ALICE));
    block += 1;
    assert_eq!(Ok(()), magink.claim(ALICE, block));
    assert_eq!(255, magink.get_badges(ALICE));
}

#[test]
fn claim_cycle_scenario() {
    // one full cycle: start(10), advance 9, one block short, then claim
    let mut magink = Magink::new();
    let mut block: u32 = 0;
    magink.start(ALICE, 10, block);
    block += 9;
    assert_eq!(1, magink.get_remaining(ALICE, block));
    assert_eq!(Err(Error::TooEarlyToClaim), magink.claim(ALICE, block));
    block += 1;
    assert_eq!(Ok(()), magink.claim(ALICE, block));
    assert_eq!(1, magink.get_badges(ALICE));
    assert_eq!(10, magink.get_remaining(ALICE, block));

    // repeat the cycle from the reset state
    block += 9;
    assert_eq!(1, magink.get_remaining(ALICE, block));
    assert_eq!(Err(Error::TooEarlyToClaim), magink.claim(ALICE, block));
    block += 1;
    assert_eq!(Ok(()), magink.claim(ALICE, block));
    assert_eq!(2, magink.get_badges(ALICE));
}
