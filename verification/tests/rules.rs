//! The rules of the escrow on plain values, without a host.

use lock_unlock_smart_contract::{AccountId, Error, Locked, LockUnlockSmartContract, Redeemed};

const PHRASE: &str = "Hello, World!";

fn alice() -> AccountId {
    AccountId::from_bytes([0x01; 32])
}

fn bob() -> AccountId {
    AccountId::from_bytes([0x02; 32])
}

fn locked_for_alice() -> LockUnlockSmartContract {
    let mut escrow = LockUnlockSmartContract::new();
    assert_eq!(escrow.lock(alice(), 100), Ok(Locked { locker: alice(), amount: 100 }));
    escrow
}

#[test]
fn account_ids_compare_by_their_bytes() {
    let mut bytes = [0x01; 32];
    assert_eq!(AccountId::from_bytes(bytes), alice());
    assert_ne!(alice(), bob());
    bytes[31] = 0x02;
    assert_ne!(AccountId::from_bytes(bytes), alice());
    bytes[31] = 0x01;
    bytes[0] = 0x00;
    assert_ne!(AccountId::from_bytes(bytes), alice());
    assert_eq!(AccountId::from_bytes(bytes).to_bytes(), bytes);
}

#[test]
fn empty_escrow_refuses_every_claim() {
    let mut escrow = LockUnlockSmartContract::new();
    assert_eq!(escrow.authorize(alice(), PHRASE), Err(Error::NotLocker));
    assert_eq!(escrow.authorize(bob(), "Wrong message"), Err(Error::NotLocker));
    assert_eq!(escrow.authorize(alice(), ""), Err(Error::NotLocker));
    assert_eq!(escrow.settle(true), Err(Error::NotLocker));
    assert_eq!(escrow.settle(false), Err(Error::NotLocker));
    assert_eq!(escrow.locker(), None);
    assert_eq!(escrow.locked_amount(), 0);
}

#[test]
fn deposit_into_empty_escrow_locks_it() {
    let mut escrow = LockUnlockSmartContract::new();
    let event = escrow.lock(bob(), 1);
    assert_eq!(event, Ok(Locked { locker: bob(), amount: 1 }));
    assert_eq!(escrow.locker(), Some(bob()));
    assert_eq!(escrow.locked_amount(), 1);

    let mut escrow = LockUnlockSmartContract::default();
    let event = escrow.lock(alice(), u128::MAX);
    assert_eq!(event, Ok(Locked { locker: alice(), amount: u128::MAX }));
    assert_eq!(escrow.locker(), Some(alice()));
    assert_eq!(escrow.locked_amount(), u128::MAX);
}

#[test]
fn deposit_of_nothing_is_refused() {
    let mut escrow = LockUnlockSmartContract::new();
    assert_eq!(escrow.lock(alice(), 0), Err(Error::NoAssetsSent));
    assert_eq!(escrow.locker(), None);
    assert_eq!(escrow.locked_amount(), 0);
}

#[test]
fn deposit_into_locked_escrow_is_refused() {
    let mut escrow = locked_for_alice();
    assert_eq!(escrow.lock(bob(), 5), Err(Error::AssetsAlreadyLocked));
    assert_eq!(escrow.lock(alice(), 100), Err(Error::AssetsAlreadyLocked));
    // A held deposit is reported before a missing value.
    assert_eq!(escrow.lock(bob(), 0), Err(Error::AssetsAlreadyLocked));
    assert_eq!(escrow.locker(), Some(alice()));
    assert_eq!(escrow.locked_amount(), 100);
}

#[test]
fn claim_by_another_account_is_refused() {
    let escrow = locked_for_alice();
    assert_eq!(escrow.authorize(bob(), PHRASE), Err(Error::NotLocker));
    // Ownership is settled before the phrase is looked at.
    assert_eq!(escrow.authorize(bob(), "Wrong message"), Err(Error::NotLocker));
    assert_eq!(escrow.locker(), Some(alice()));
    assert_eq!(escrow.locked_amount(), 100);
}

#[test]
fn claim_with_wrong_phrase_is_refused() {
    let escrow = locked_for_alice();
    assert_eq!(escrow.authorize(alice(), "Wrong message"), Err(Error::IncorrectMessage));
    assert_eq!(escrow.locker(), Some(alice()));
    assert_eq!(escrow.locked_amount(), 100);
}

#[test]
fn phrase_is_compared_exactly() {
    let escrow = locked_for_alice();
    for phrase in [
        "",
        "hello, world!",
        "HELLO, WORLD!",
        "Hello, World",
        "Hello, World!!",
        " Hello, World!",
        "Hello, World! ",
        "Hello, World!\n",
        "Hello,  World!",
        "Hello, W\u{00f6}rld!",
    ] {
        assert_eq!(escrow.authorize(alice(), phrase), Err(Error::IncorrectMessage));
    }
    assert_eq!(escrow.authorize(alice(), PHRASE), Ok(100));
}

#[test]
fn claim_by_owner_pays_out_and_empties() {
    let mut escrow = locked_for_alice();
    assert_eq!(escrow.authorize(alice(), PHRASE), Ok(100));
    // Authorizing changes nothing.
    assert_eq!(escrow.locker(), Some(alice()));
    assert_eq!(escrow.locked_amount(), 100);
    assert_eq!(escrow.settle(true), Ok(Redeemed { locker: alice(), amount: 100 }));
    assert_eq!(escrow.locker(), None);
    assert_eq!(escrow.locked_amount(), 0);
}

#[test]
fn failed_transfer_keeps_the_deposit() {
    let mut escrow = locked_for_alice();
    assert_eq!(escrow.authorize(alice(), PHRASE), Ok(100));
    assert_eq!(escrow.settle(false), Err(Error::TransferFailed));
    assert_eq!(escrow.locker(), Some(alice()));
    assert_eq!(escrow.locked_amount(), 100);
    // The claim can be made again.
    assert_eq!(escrow.authorize(alice(), PHRASE), Ok(100));
    assert_eq!(escrow.settle(true), Ok(Redeemed { locker: alice(), amount: 100 }));
    assert_eq!(escrow.locker(), None);
    assert_eq!(escrow.locked_amount(), 0);
}

#[test]
fn rounds_repeat_with_same_or_other_owner() {
    let mut escrow = LockUnlockSmartContract::new();
    let rounds = [(alice(), 100u128), (alice(), 100), (bob(), 3), (alice(), 7), (bob(), u128::MAX)];
    for (who, amount) in rounds {
        assert_eq!(escrow.lock(who, amount), Ok(Locked { locker: who, amount }));
        assert_eq!(escrow.locker(), Some(who));
        assert_eq!(escrow.locked_amount(), amount);
        assert_eq!(escrow.authorize(who, PHRASE), Ok(amount));
        assert_eq!(escrow.settle(true), Ok(Redeemed { locker: who, amount }));
        assert_eq!(escrow.locker(), None);
        assert_eq!(escrow.locked_amount(), 0);
    }
}

#[test]
fn from_parts_accepts_only_what_an_escrow_can_hold() {
    let empty = LockUnlockSmartContract::from_parts(None, 0).unwrap();
    assert_eq!(empty.locker(), None);
    assert_eq!(empty.locked_amount(), 0);

    let locked = LockUnlockSmartContract::from_parts(Some(bob()), 9).unwrap();
    assert_eq!(locked.locker(), Some(bob()));
    assert_eq!(locked.locked_amount(), 9);
    assert_eq!(locked.authorize(bob(), PHRASE), Ok(9));

    assert!(LockUnlockSmartContract::from_parts(Some(bob()), 0).is_none());
    assert!(LockUnlockSmartContract::from_parts(None, 9).is_none());
}

#[test]
fn claim_on_empty_escrow_is_not_locker() {
    let mut escrow = LockUnlockSmartContract::new();
    let mut asked = 0;
    for (who, phrase) in [(alice(), PHRASE), (bob(), PHRASE), (alice(), "Wrong message")] {
        let answer = escrow.redeem(who, String::from(phrase), |_, _| {
            asked += 1;
            true
        });
        assert_eq!(answer, Err(Error::NotLocker));
    }
    assert_eq!(asked, 0);
    assert_eq!(escrow.locker(), None);
    assert_eq!(escrow.locked_amount(), 0);
}

#[test]
fn claim_by_bob_after_alice_deposits_is_not_locker() {
    let mut escrow = locked_for_alice();
    let mut asked = 0;
    let answer = escrow.redeem(bob(), String::from("Hello, World!"), |_, _| {
        asked += 1;
        true
    });
    assert_eq!(answer, Err(Error::NotLocker));
    assert_eq!(asked, 0);
    assert_eq!(escrow.locker(), Some(alice()));
    assert_eq!(escrow.locked_amount(), 100);
}

#[test]
fn claim_by_alice_with_wrong_message_is_incorrect_message() {
    let mut escrow = locked_for_alice();
    let mut asked = 0;
    let answer = escrow.redeem(alice(), String::from("Wrong message"), |_, _| {
        asked += 1;
        true
    });
    assert_eq!(answer, Err(Error::IncorrectMessage));
    assert_eq!(asked, 0);
    assert_eq!(escrow.locker(), Some(alice()));
    assert_eq!(escrow.locked_amount(), 100);
}

#[test]
fn claim_by_alice_transfers_and_resets() {
    let mut escrow = locked_for_alice();
    let mut transfers = Vec::new();
    let answer = escrow.redeem(alice(), String::from("Hello, World!"), |to, amount| {
        transfers.push((to, amount));
        true
    });
    assert_eq!(answer, Ok(Redeemed { locker: alice(), amount: 100 }));
    assert_eq!(transfers, vec![(alice(), 100)]);
    assert_eq!(escrow.locker(), None);
    assert_eq!(escrow.locked_amount(), 0);
}

#[test]
fn claim_with_failing_transfer_is_transfer_failed() {
    let mut escrow = locked_for_alice();
    let mut transfers = Vec::new();
    let answer = escrow.redeem(alice(), String::from("Hello, World!"), |to, amount| {
        transfers.push((to, amount));
        false
    });
    assert_eq!(answer, Err(Error::TransferFailed));
    assert_eq!(transfers, vec![(alice(), 100)]);
    assert_eq!(escrow.locker(), Some(alice()));
    assert_eq!(escrow.locked_amount(), 100);

    // Nothing was lost: the same claim succeeds once the transfer does.
    let answer = escrow.redeem(alice(), String::from("Hello, World!"), |_, _| true);
    assert_eq!(answer, Ok(Redeemed { locker: alice(), amount: 100 }));
    assert_eq!(escrow.locker(), None);
    assert_eq!(escrow.locked_amount(), 0);
}

#[test]
fn deposit_and_claim_cycle() {
    let mut escrow = LockUnlockSmartContract::new();
    let mut moved = Vec::new();
    for (who, amount) in [(alice(), 100u128), (alice(), 100), (bob(), 42), (alice(), 1)] {
        assert_eq!(escrow.lock(who, amount), Ok(Locked { locker: who, amount }));
        let answer = escrow.redeem(who, String::from("Hello, World!"), |to, value| {
            moved.push((to, value));
            true
        });
        assert_eq!(answer, Ok(Redeemed { locker: who, amount }));
        assert_eq!(escrow.locker(), None);
        assert_eq!(escrow.locked_amount(), 0);
    }
    assert_eq!(moved, vec![(alice(), 100), (alice(), 100), (bob(), 42), (alice(), 1)]);
}

#[test]
fn errors_keep_their_numbers() {
    let numbered = [
        (Error::AssetsAlreadyLocked, 0u8),
        (Error::NoAssetsSent, 1),
        (Error::NotLocker, 2),
        (Error::IncorrectMessage, 3),
        (Error::TransferFailed, 4),
    ];
    for (error, code) in numbered {
        assert_eq!(error.code(), code);
        assert_eq!(Error::from_code(code), Some(error));
    }
    assert_eq!(Error::from_code(5), None);
    assert_eq!(Error::from_code(u8::MAX), None);
}
