use blake2::Digest;
use parity_scale_codec::Encode;

use pallet_kitties::{Error, Event, Pallet, PaymentOrder};

const ALICE: u64 = 1;
const BOB: u64 = 2;
const CAROL: u64 = 3;

fn seed() -> Vec<u8> {
    vec![0xde, 0xad, 0xbe, 0xef, 0x01, 0x02, 0x03, 0x04]
}

#[test]
fn counter_is_absent_before_first_creation() {
    let p = Pallet::new();
    assert_eq!(p.kitties_count(), None);
    assert_eq!(p.owner(1), None);
    assert!(p.kitties(1).is_none());
    assert!(p.events().is_empty());
}

#[test]
fn create_assigns_increasing_ids_from_one() {
    let mut p = Pallet::new();
    let seed = seed();
    assert_eq!(p.create(ALICE, &seed, 0), Ok(1));
    assert_eq!(p.create(ALICE, &seed, 1), Ok(2));
    assert_eq!(p.create(BOB, &seed, 2), Ok(3));
    assert_eq!(p.kitties_count(), Some(4));
}

#[test]
fn create_sets_owner_and_existence() {
    let mut p = Pallet::new();
    let seed = seed();
    let id = p.create(BOB, &seed, 0).unwrap();
    assert_eq!(p.owner(id), Some(BOB));
    assert!(p.kitties(id).is_some());
    assert_eq!(p.events(), &vec![Event::Created(BOB, id)]);
}

#[test]
fn create_registers_the_derived_genome() {
    let mut p = Pallet::new();
    let seed = seed();
    let id = p.create(ALICE, &seed, 5).unwrap();
    let genome = p.kitties(id).unwrap().0;
    assert_eq!(genome, Pallet::random_value(ALICE, &seed, 5));
    assert_eq!(genome.len(), 16);
}

#[test]
fn random_value_is_deterministic() {
    let seed = seed();
    let a = Pallet::random_value(ALICE, &seed, 7);
    let b = Pallet::random_value(ALICE, &seed, 7);
    assert_eq!(a, b);
    assert_eq!(a.len(), 16);
    assert_ne!(a, Pallet::random_value(ALICE, &seed, 8));
    assert_ne!(a, Pallet::random_value(BOB, &seed, 7));
}

#[test]
fn random_value_matches_the_direct_digest() {
    let seed = seed();
    let payload = (&seed, ALICE, 7u32).encode();
    let expected: Vec<u8> = blake2::Blake2b128::digest(payload.as_slice()).to_vec();
    assert_eq!(Pallet::random_value(ALICE, &seed, 7), expected);
}

#[test]
fn breed_with_identical_parents_fails() {
    let mut p = Pallet::new();
    let seed = seed();
    let a = p.create(ALICE, &seed, 0).unwrap();
    assert_eq!(p.breed(ALICE, a, a, &seed, 1), Err(Error::SameParentIndex));
    // The check comes first: even a nonexistent id is rejected as a same pair.
    assert_eq!(p.breed(ALICE, 9, 9, &seed, 1), Err(Error::SameParentIndex));
    assert_eq!(p.kitties_count(), Some(2));
}

#[test]
fn breed_with_a_missing_parent_fails() {
    let mut p = Pallet::new();
    let seed = seed();
    let a = p.create(ALICE, &seed, 0).unwrap();
    assert_eq!(p.breed(ALICE, a, 9, &seed, 1), Err(Error::InvalidAssetIndex));
    assert_eq!(p.breed(ALICE, 9, a, &seed, 1), Err(Error::InvalidAssetIndex));
    assert_eq!(p.kitties_count(), Some(2));
    assert_eq!(p.events().len(), 1);
}

#[test]
fn breed_combines_the_parents_under_the_selector() {
    let mut p = Pallet::new();
    let seed = seed();
    let a = p.create(ALICE, &seed, 0).unwrap();
    let b = p.create(BOB, &seed, 1).unwrap();
    let dna_a = p.kitties(a).unwrap().0;
    let dna_b = p.kitties(b).unwrap().0;
    let child = p.breed(ALICE, a, b, &seed, 2).unwrap();
    assert_eq!(p.owner(child), Some(ALICE));
    let selector = Pallet::random_value(ALICE, &seed, 2);
    let dna_child = p.kitties(child).unwrap().0;
    for i in 0..16 {
        assert_eq!(dna_child[i], (selector[i] & dna_a[i]) | (selector[i] & dna_b[i]));
        // The selector only masks the union of the parents.
        assert_eq!(dna_child[i], selector[i] & (dna_a[i] | dna_b[i]));
    }
}

#[test]
fn transfer_by_a_non_owner_fails_and_changes_nothing() {
    let mut p = Pallet::new();
    let seed = seed();
    let id = p.create(ALICE, &seed, 0).unwrap();
    assert_eq!(p.transfer(BOB, CAROL, id), Err(Error::NotOwner));
    assert_eq!(p.owner(id), Some(ALICE));
    assert_eq!(p.transfer(ALICE, BOB, 9), Err(Error::InvalidAssetIndex));
    assert_eq!(p.events().len(), 1);
}

#[test]
fn transfer_by_the_owner_moves_exactly_that_asset() {
    let mut p = Pallet::new();
    let seed = seed();
    let first = p.create(ALICE, &seed, 0).unwrap();
    let second = p.create(ALICE, &seed, 1).unwrap();
    assert_eq!(p.transfer(ALICE, BOB, second), Ok(()));
    assert_eq!(p.owner(second), Some(BOB));
    assert_eq!(p.owner(first), Some(ALICE));
    assert_eq!(
        p.events(),
        &vec![
            Event::Created(ALICE, first),
            Event::Created(ALICE, second),
            Event::Transferred(ALICE, BOB, second),
        ]
    );
}

#[test]
fn buy_and_sell_with_caller_as_counterparty_fail() {
    let mut p = Pallet::new();
    let seed = seed();
    let id = p.create(ALICE, &seed, 0).unwrap();
    assert_eq!(p.buy_order(ALICE, ALICE, id, 10), Err(Error::SameOwner));
    assert_eq!(p.buy(ALICE, ALICE, id, true), Err(Error::SameOwner));
    assert_eq!(p.sell_order(ALICE, ALICE, id, 10), Err(Error::SameOwner));
    assert_eq!(p.sell(ALICE, ALICE, id, true), Err(Error::SameOwner));
    assert_eq!(p.owner(id), Some(ALICE));
}

#[test]
fn buy_and_sell_check_the_owner_first() {
    let mut p = Pallet::new();
    let seed = seed();
    let id = p.create(ALICE, &seed, 0).unwrap();
    // The named seller does not own the asset.
    assert_eq!(p.buy_order(BOB, CAROL, id, 10), Err(Error::NotOwner));
    assert_eq!(p.buy(BOB, CAROL, id, true), Err(Error::NotOwner));
    // The selling caller does not own the asset.
    assert_eq!(p.sell_order(BOB, CAROL, id, 10), Err(Error::NotOwner));
    assert_eq!(p.sell(BOB, CAROL, id, true), Err(Error::NotOwner));
    // A missing asset is rejected before any owner check.
    assert_eq!(p.buy_order(BOB, ALICE, 9, 10), Err(Error::InvalidAssetIndex));
    assert_eq!(p.sell(ALICE, BOB, 9, true), Err(Error::InvalidAssetIndex));
    assert_eq!(p.owner(id), Some(ALICE));
}

#[test]
fn a_failed_payment_leaves_ownership_unchanged() {
    let mut p = Pallet::new();
    let seed = seed();
    let id = p.create(ALICE, &seed, 0).unwrap();
    assert_eq!(
        p.buy_order(BOB, ALICE, id, 25),
        Ok(PaymentOrder { from: BOB, to: ALICE, amount: 25 })
    );
    assert_eq!(p.buy(BOB, ALICE, id, false), Err(Error::PaymentFailed));
    assert_eq!(p.owner(id), Some(ALICE));
    assert_eq!(
        p.sell_order(ALICE, BOB, id, 25),
        Ok(PaymentOrder { from: BOB, to: ALICE, amount: 25 })
    );
    assert_eq!(p.sell(ALICE, BOB, id, false), Err(Error::PaymentFailed));
    assert_eq!(p.owner(id), Some(ALICE));
}

#[test]
fn a_successful_payment_moves_ownership() {
    let mut p = Pallet::new();
    let seed = seed();
    let id = p.create(ALICE, &seed, 0).unwrap();
    assert_eq!(p.buy(BOB, ALICE, id, true), Ok(()));
    assert_eq!(p.owner(id), Some(BOB));
    assert_eq!(p.sell(BOB, CAROL, id, true), Ok(()));
    assert_eq!(p.owner(id), Some(CAROL));
    // Trading emits no event.
    assert_eq!(p.events().len(), 1);
}

#[test]
fn end_to_end_create_breed_transfer_buy() {
    let mut p = Pallet::new();
    let seed = seed();
    let mut alice_funds: u64 = 50;
    let mut bob_funds: u64 = 5;

    let first = p.create(ALICE, &seed, 0).unwrap();
    assert_eq!(first, 1);
    assert_eq!(p.owner(first), Some(ALICE));

    let second = p.create(BOB, &seed, 1).unwrap();
    assert_eq!(second, 2);
    assert_eq!(p.owner(second), Some(BOB));

    let third = p.breed(ALICE, first, second, &seed, 2).unwrap();
    assert_eq!(third, 3);
    assert_eq!(p.owner(third), Some(ALICE));
    let selector = Pallet::random_value(ALICE, &seed, 2);
    let dna_1 = p.kitties(first).unwrap().0;
    let dna_2 = p.kitties(second).unwrap().0;
    let dna_3 = p.kitties(third).unwrap().0;
    for i in 0..16 {
        assert_eq!(dna_3[i], selector[i] & (dna_1[i] | dna_2[i]));
    }

    assert_eq!(p.transfer(ALICE, BOB, third), Ok(()));
    assert_eq!(p.owner(third), Some(BOB));

    // Alice buys the bred asset back from Bob for 10; the host performs the
    // payment named by the order and reports its outcome.
    let order = p.buy_order(ALICE, BOB, third, 10).unwrap();
    assert_eq!(order, PaymentOrder { from: ALICE, to: BOB, amount: 10 });
    let paid = alice_funds >= order.amount;
    if paid {
        alice_funds -= order.amount;
        bob_funds += order.amount;
    }
    assert_eq!(p.buy(ALICE, BOB, third, paid), Ok(()));
    assert_eq!(p.owner(third), Some(ALICE));
    assert_eq!(alice_funds, 40);
    assert_eq!(bob_funds, 15);
}
