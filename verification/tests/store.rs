//! State-store and field-element checks.

use katana_core::felt::{Felt, LIMB_MAX, PRIME_HI};
use katana_core::state::{CachedState, CompiledClass, DictStateReader, StateError};

fn fresh_store() -> CachedState {
    CachedState::new(DictStateReader::new())
}

#[test]
fn storage_defaults_to_zero() {
    let store = fresh_store();
    let v = store.get_storage_at(&Felt::from_u64(1), &Felt::from_u64(2));
    assert_eq!(v, Felt::zero());
}

#[test]
fn storage_reads_observe_prior_writes() {
    let mut store = fresh_store();
    let addr = Felt::from_u64(0xdead);
    let key = Felt::from_u64(5);
    store.set_storage_at(&addr, &key, &Felt::from_u64(77));
    assert_eq!(store.get_storage_at(&addr, &key), Felt::from_u64(77));
    // The most recent write wins.
    store.set_storage_at(&addr, &key, &Felt::from_u64(78));
    assert_eq!(store.get_storage_at(&addr, &key), Felt::from_u64(78));
    // Other cells are untouched.
    assert_eq!(
        store.get_storage_at(&addr, &Felt::from_u64(6)),
        Felt::zero()
    );
    assert_eq!(
        store.get_storage_at(&Felt::from_u64(0xbeef), &key),
        Felt::zero()
    );
}

#[test]
fn nonce_defaults_to_zero_and_updates() {
    let mut store = fresh_store();
    let addr = Felt::from_u64(0xdead);
    assert_eq!(store.get_nonce_at(&addr), Felt::zero());
    store.set_nonce_at(&addr, &Felt::from_u64(3));
    assert_eq!(store.get_nonce_at(&addr), Felt::from_u64(3));
}

#[test]
fn class_binding_roundtrip() {
    let mut store = fresh_store();
    let addr = Felt::from_u64(0xdead);
    assert_eq!(
        store.get_class_hash_at(&addr),
        Err(StateError::UndeclaredClass)
    );
    store.set_class_hash_at(&addr, &Felt::from_u64(0xaa));
    assert_eq!(store.get_class_hash_at(&addr), Ok(Felt::from_u64(0xaa)));
}

#[test]
fn compiled_class_roundtrip() {
    let mut store = fresh_store();
    let class_hash = Felt::from_u64(0x4bc5);
    assert_eq!(
        store.get_compiled_class(&class_hash).err(),
        Some(StateError::UndeclaredClassHash)
    );
    store.declare_class(
        &class_hash,
        CompiledClass { compiled_class_hash: Felt::from_u64(0x4bc5), payload: vec![1, 2, 3] },
    );
    let record = store.get_compiled_class(&class_hash).unwrap();
    assert_eq!(record.compiled_class_hash, Felt::from_u64(0x4bc5));
    assert_eq!(record.payload, vec![1, 2, 3]);
}

#[test]
fn felt_limbs_roundtrip() {
    let f = Felt::from_parts(0x1234, 0x5678).unwrap();
    assert_eq!(f.parts(), (0x1234, 0x5678));
    assert_eq!(Felt::from_u64(9).parts(), (0, 9));
    assert_eq!(Felt::from_u128(1 << 100).parts(), (0, 1 << 100));
}

#[test]
fn felt_rejects_values_at_or_above_the_prime() {
    // The largest element is accepted; its successors are not.
    assert!(Felt::from_parts(PRIME_HI, 0).is_some());
    assert!(Felt::from_parts(PRIME_HI, 1).is_none());
    assert!(Felt::from_parts(PRIME_HI + 1, 0).is_none());
    assert!(Felt::from_parts(LIMB_MAX, LIMB_MAX).is_none());
}

#[test]
fn felt_add_one_wraps_at_the_prime() {
    assert_eq!(Felt::zero().add_one(), Felt::from_u64(1));
    assert_eq!(
        Felt::from_u128(LIMB_MAX).add_one().parts(),
        (1, 0)
    );
    // The successor of the largest element is zero.
    let largest = Felt::from_parts(PRIME_HI, 0).unwrap();
    assert_eq!(largest.add_one(), Felt::zero());
}
