use linexus_core::demiurge::{DemiurgeBalance, LedgerEntry, ValueClass, EPOCH_DECAY_SECS};
use linexus_core::errors::LinexusError;
use uuid::Uuid;

const T: u64 = 1_700_000_000;

#[test]
fn mint_sets_correct_expiry() {
    let e = LedgerEntry::mint(Uuid::new_v4(), None, None, ValueClass::Pranjurity(100), T, "s".into());
    assert_eq!(e.expires_at, T + EPOCH_DECAY_SECS);
    assert!(!e.is_decayed(T));
    assert!(e.is_decayed(T + EPOCH_DECAY_SECS + 1));
}

#[test]
fn remaining_ttl_counts_down() {
    let e = LedgerEntry::mint(Uuid::new_v4(), None, None, ValueClass::Supranjus(50), T, "s".into());
    assert_eq!(e.remaining_ttl(T), EPOCH_DECAY_SECS);
    assert_eq!(e.remaining_ttl(T + EPOCH_DECAY_SECS + 9999), 0);
}

#[test]
fn balance_applies_active() {
    let mut b = DemiurgeBalance::default();
    let e = LedgerEntry::mint(Uuid::new_v4(), None, None, ValueClass::Pranjurity(100), T, "s".into());
    b.apply_entry(&e, T).unwrap();
    assert_eq!(b.total(), 100);
}

#[test]
fn balance_rejects_decayed() {
    let mut b = DemiurgeBalance::default();
    let e = LedgerEntry::mint(Uuid::new_v4(), None, None, ValueClass::Pranjurity(100), T, "s".into());
    assert!(b.apply_entry(&e, T + EPOCH_DECAY_SECS + 1).is_err());
}

#[test]
fn value_class_amount() {
    assert_eq!(ValueClass::Pranjurity(42).amount(), 42);
    assert_eq!(ValueClass::PassiveEcological(7).amount(), 7);
}

#[test]
fn epoch_is_five_years_of_seconds() {
    assert_eq!(EPOCH_DECAY_SECS, 157_680_000);
}

#[test]
fn mint_keeps_its_inputs_and_draws_fresh_ids() {
    let node = Uuid::new_v4();
    let demand = Uuid::new_v4();
    let a = LedgerEntry::mint(node, Some(demand), None, ValueClass::Supranjus(5), T, "sig".into());
    let b = LedgerEntry::mint(node, Some(demand), None, ValueClass::Supranjus(5), T, "sig".into());
    assert_eq!(a.timestamp, T);
    assert_eq!(a.node_id, node);
    assert_eq!(a.source_demand_id, Some(demand));
    assert_eq!(a.task_id, None);
    assert_eq!(a.value, ValueClass::Supranjus(5));
    assert_eq!(a.authority_signature, "sig");
    assert_ne!(a.transaction_id, b.transaction_id);
}

#[test]
fn entry_is_live_through_its_expiry_second() {
    let e = LedgerEntry::mint(Uuid::new_v4(), None, None, ValueClass::Pranjurity(1), T, "s".into());
    assert!(!e.is_decayed(T + EPOCH_DECAY_SECS));
    assert_eq!(e.remaining_ttl(T + EPOCH_DECAY_SECS), 0);
    assert_eq!(e.remaining_ttl(T + 10) + T + 10, e.expires_at);
}

#[test]
fn each_class_is_credited_to_its_own_account() {
    let mut b = DemiurgeBalance::default();
    let p = LedgerEntry::mint(Uuid::new_v4(), None, None, ValueClass::Pranjurity(3), T, "s".into());
    let s = LedgerEntry::mint(Uuid::new_v4(), None, None, ValueClass::Supranjus(5), T, "s".into());
    let e = LedgerEntry::mint(Uuid::new_v4(), None, None, ValueClass::PassiveEcological(7), T, "s".into());
    b.apply_entry(&p, T).unwrap();
    b.apply_entry(&s, T + 1).unwrap();
    b.apply_entry(&e, T + EPOCH_DECAY_SECS).unwrap();
    assert_eq!((b.pranjurity, b.supranjus, b.passive_ecological), (3, 5, 7));
    assert_eq!(b.total(), 15);
}

#[test]
fn decayed_entry_leaves_balance_and_names_the_reason() {
    let mut b = DemiurgeBalance { pranjurity: 4, supranjus: 5, passive_ecological: 6 };
    let e = LedgerEntry::mint(Uuid::new_v4(), None, None, ValueClass::Supranjus(50), T, "s".into());
    let r = b.apply_entry(&e, T + EPOCH_DECAY_SECS + 1);
    match r {
        Err(LinexusError::LedgerError(m)) => assert_eq!(m, "Cannot apply decayed entry"),
        other => panic!("expected a ledger error, got {:?}", other),
    }
    assert_eq!((b.pranjurity, b.supranjus, b.passive_ecological), (4, 5, 6));
}
