use pallet_poe::{ClaimRecord, ClaimStore, Config, Error, Event, Pallet};

const ALICE: u64 = 1;
const BOB: u64 = 2;
const CAROL: u64 = 3;

struct FixedClock(u64);

impl Config for FixedClock {
    fn block_number(&self) -> u64 {
        self.0
    }
}

fn proof1() -> Vec<u8> {
    b"proof1".to_vec()
}

#[test]
fn end_to_end_scenario() {
    let mut p = Pallet::new();
    let clock = FixedClock(10);

    assert_eq!(p.create_claim(&clock, ALICE, proof1()), Ok(()));
    assert_eq!(p.events().last(), Some(&Event::ClaimCreated(ALICE, proof1())));

    assert_eq!(p.revoke_claim(BOB, proof1()), Err(Error::NotOwner));
    assert_eq!(p.proofs(&proof1()), Some(ClaimRecord { owner: ALICE, registered_at: 10 }));
    assert_eq!(p.events().len(), 1);

    let later = FixedClock(12);
    assert_eq!(p.transfer_claim(&later, ALICE, proof1(), BOB), Ok(()));
    assert_eq!(p.events().last(), Some(&Event::ClaimTransferred(ALICE, BOB, proof1())));
    assert_eq!(p.proofs(&proof1()), Some(ClaimRecord { owner: BOB, registered_at: 12 }));

    assert_eq!(p.revoke_claim(ALICE, proof1()), Err(Error::NotOwner));
    assert_eq!(p.revoke_claim(BOB, proof1()), Ok(()));
    assert_eq!(p.events().last(), Some(&Event::ClaimRevoked(BOB, proof1())));
    assert!(!p.contains(&proof1()));
    assert_eq!(p.events().len(), 3);
}

#[test]
fn create_then_owned_by_creator() {
    let mut p = Pallet::new();
    assert_eq!(p.create_claim_at(CAROL, vec![7, 7, 7], 4), Ok(()));
    assert!(p.contains(&vec![7, 7, 7]));
    assert_eq!(p.proofs(&vec![7, 7, 7]), Some(ClaimRecord { owner: CAROL, registered_at: 4 }));
}

#[test]
fn second_create_is_duplicate() {
    let mut p = Pallet::new();
    assert_eq!(p.create_claim_at(ALICE, proof1(), 1), Ok(()));
    assert_eq!(p.create_claim_at(BOB, proof1(), 2), Err(Error::DuplicateClaim));
    assert_eq!(p.create_claim_at(ALICE, proof1(), 3), Err(Error::DuplicateClaim));
    assert_eq!(p.proofs(&proof1()), Some(ClaimRecord { owner: ALICE, registered_at: 1 }));
    assert_eq!(p.events().len(), 1);
}

#[test]
fn revoke_by_other_is_not_owner() {
    let mut p = Pallet::new();
    p.create_claim_at(ALICE, proof1(), 1).unwrap();
    assert_eq!(p.revoke_claim(BOB, proof1()), Err(Error::NotOwner));
    assert_eq!(p.proofs(&proof1()), Some(ClaimRecord { owner: ALICE, registered_at: 1 }));
}

#[test]
fn revoke_then_claim_again() {
    let mut p = Pallet::new();
    p.create_claim_at(ALICE, proof1(), 1).unwrap();
    assert_eq!(p.revoke_claim(ALICE, proof1()), Ok(()));
    assert!(!p.contains(&proof1()));
    assert_eq!(p.proofs(&proof1()), None);
    assert_eq!(p.create_claim_at(BOB, proof1(), 5), Ok(()));
    assert_eq!(p.proofs(&proof1()), Some(ClaimRecord { owner: BOB, registered_at: 5 }));
}

#[test]
fn transfer_keeps_key_and_other_claims() {
    let mut p = Pallet::new();
    p.create_claim_at(ALICE, proof1(), 1).unwrap();
    p.create_claim_at(BOB, vec![9], 2).unwrap();
    assert_eq!(p.transfer_claim_at(ALICE, proof1(), CAROL, 8), Ok(()));
    assert_eq!(p.proofs(&proof1()), Some(ClaimRecord { owner: CAROL, registered_at: 8 }));
    assert_eq!(p.proofs(&vec![9]), Some(ClaimRecord { owner: BOB, registered_at: 2 }));
}

#[test]
fn transfer_to_self_refreshes_block() {
    let mut p = Pallet::new();
    p.create_claim_at(ALICE, proof1(), 1).unwrap();
    assert_eq!(p.transfer_claim_at(ALICE, proof1(), ALICE, 6), Ok(()));
    assert_eq!(p.proofs(&proof1()), Some(ClaimRecord { owner: ALICE, registered_at: 6 }));
    assert_eq!(p.events().last(), Some(&Event::ClaimTransferred(ALICE, ALICE, proof1())));
}

#[test]
fn transfer_by_other_is_not_owner() {
    let mut p = Pallet::new();
    p.create_claim_at(ALICE, proof1(), 1).unwrap();
    assert_eq!(p.transfer_claim_at(BOB, proof1(), BOB, 2), Err(Error::NotOwner));
    assert_eq!(p.proofs(&proof1()), Some(ClaimRecord { owner: ALICE, registered_at: 1 }));
    assert_eq!(p.events().len(), 1);
}

#[test]
fn absent_key_is_not_found() {
    let mut p = Pallet::new();
    p.create_claim_at(ALICE, proof1(), 1).unwrap();
    assert_eq!(p.revoke_claim(ALICE, vec![1, 2]), Err(Error::ClaimNotFound));
    assert_eq!(p.revoke_claim(BOB, vec![1, 2]), Err(Error::ClaimNotFound));
    assert_eq!(p.transfer_claim_at(BOB, vec![1, 2], ALICE, 3), Err(Error::ClaimNotFound));
    assert_eq!(p.transfer_claim(&FixedClock(3), ALICE, vec![1, 2], BOB), Err(Error::ClaimNotFound));
    assert_eq!(p.events().len(), 1);
}

#[test]
fn empty_key_is_a_key() {
    let mut p = Pallet::new();
    assert_eq!(p.create_claim_at(ALICE, vec![], 1), Ok(()));
    assert!(p.contains(&vec![]));
    assert!(!p.contains(&vec![0]));
    assert_eq!(p.create_claim_at(BOB, vec![0], 1), Ok(()));
    assert_eq!(p.create_claim_at(BOB, vec![], 2), Err(Error::DuplicateClaim));
}

#[test]
fn keys_differ_by_length_and_content() {
    let mut p = Pallet::new();
    p.create_claim_at(ALICE, vec![1, 2, 3], 1).unwrap();
    assert!(!p.contains(&vec![1, 2]));
    assert!(!p.contains(&vec![1, 2, 4]));
    assert!(!p.contains(&vec![1, 2, 3, 0]));
    assert!(p.contains(&vec![1, 2, 3]));
}

#[test]
fn store_insert_get_remove() {
    let mut s = ClaimStore::new();
    let r1 = ClaimRecord { owner: ALICE, registered_at: 1 };
    let r2 = ClaimRecord { owner: BOB, registered_at: 2 };
    assert!(!s.contains(&vec![5]));
    s.insert(vec![5], r1);
    s.insert(vec![6], r2);
    assert_eq!(s.get(&vec![5]), Some(r1));
    s.insert(vec![5], r2);
    assert_eq!(s.get(&vec![5]), Some(r2));
    s.remove(&vec![5]);
    assert_eq!(s.get(&vec![5]), None);
    assert_eq!(s.get(&vec![6]), Some(r2));
    s.remove(&vec![7]);
    assert_eq!(s.get(&vec![6]), Some(r2));
}

#[test]
fn clock_block_is_recorded() {
    let mut p = Pallet::new();
    assert_eq!(p.create_claim(&FixedClock(u64::MAX), ALICE, proof1()), Ok(()));
    assert_eq!(p.proofs(&proof1()), Some(ClaimRecord { owner: ALICE, registered_at: u64::MAX }));
    assert_eq!(p.create_claim(&FixedClock(0), BOB, proof1()), Err(Error::DuplicateClaim));
}
