use shared_cell::Shared;
use shared_cell::Store;
use shared_cell::WeakShared;

#[test]
fn fresh_cell_counts() {
    let mut store = Store::new();
    let shared = Shared::new(&mut store, "Hello".to_string());

    assert_eq!(shared.strong_count(&store), 1);
    assert_eq!(shared.weak_count(&store), 0);
}

#[test]
fn downgrade_twice_counts() {
    let mut store = Store::new();
    let shared = Shared::new(&mut store, "Hello".to_string());
    let weak = shared.downgrade(&mut store);
    let weak2 = weak.clone(&mut store);

    assert_eq!(weak2.weak_count(&store), 2);
    assert_eq!(shared.weak_count(&store), 2);
    assert_eq!(shared.strong_count(&store), 1);
}

#[test]
fn write_visible_to_every_clone() {
    let mut store = Store::new();
    let shared1 = Shared::new(&mut store, 10u64);
    let shared2 = shared1.clone(&mut store);
    let shared3 = shared2.clone(&mut store);

    *shared1.borrow_mut(&mut store) = 99;

    assert_eq!(*shared2.borrow(&store), 99);
    assert_eq!(*shared3.borrow(&store), 99);
}

#[test]
fn round_trip_preserves_value() {
    let mut store = Store::new();
    let shared = Shared::new(&mut store, "Hello".to_string());
    let weak = shared.downgrade(&mut store);
    let back = weak.upgrade(&mut store).unwrap();

    assert_eq!(&*back.borrow(&store), "Hello");
}

#[test]
fn empty_weak_reports_absence() {
    let mut store: Store<String> = Store::new();
    let weak: WeakShared<String> = WeakShared::new();

    assert!(weak.upgrade(&mut store).is_none());
    assert_eq!(weak.weak_count(&store), 0);
    assert_eq!(weak.strong_count(&store), 0);
}

#[test]
fn upgrade_fails_after_last_owner_goes() {
    let mut store = Store::new();
    let shared = Shared::new(&mut store, "Hello".to_string());
    let weak = shared.downgrade(&mut store);
    shared.release(&mut store);

    assert_eq!(weak.strong_count(&store), 0);
    assert_eq!(weak.weak_count(&store), 1);
    assert!(weak.upgrade(&mut store).is_none());
}

#[test]
fn value_survives_while_an_owner_remains() {
    let mut store = Store::new();
    let shared1 = Shared::new(&mut store, "Hello".to_string());
    let shared2 = shared1.clone(&mut store);
    shared1.release(&mut store);

    assert_eq!(shared2.strong_count(&store), 1);
    assert_eq!(&*shared2.borrow(&store), "Hello");
}

#[test]
fn weak_release_lowers_weak_count() {
    let mut store = Store::new();
    let shared = Shared::new(&mut store, 5u64);
    let weak1 = shared.downgrade(&mut store);
    let weak2 = weak1.clone(&mut store);
    weak1.release(&mut store);

    assert_eq!(weak2.weak_count(&store), 1);
    assert_eq!(shared.strong_count(&store), 1);
}

#[test]
fn handles_of_one_allocation_share_identity() {
    let mut store = Store::new();
    let shared = Shared::new(&mut store, 5u64);
    let clone = shared.clone(&mut store);
    let weak = shared.downgrade(&mut store);

    assert_eq!(shared.as_ptr(), clone.as_ptr());
    assert_eq!(weak.as_ptr(&store), shared.as_ptr());
}

#[test]
fn allocations_are_independent() {
    let mut store = Store::new();
    let first = Shared::new(&mut store, 1u64);
    let second = Shared::new(&mut store, 2u64);
    let _ = second.clone(&mut store);

    assert_ne!(first.as_ptr(), second.as_ptr());
    assert_eq!(first.strong_count(&store), 1);
    assert_eq!(second.strong_count(&store), 2);
    assert_eq!(*first.borrow(&store), 1);
    assert_eq!(*second.borrow(&store), 2);
    assert_eq!(store.len(), 2);
}

#[test]
fn new_from_wraps_without_counting() {
    let mut store = Store::new();
    let shared = Shared::new(&mut store, 8u64);
    let again: Shared<u64> = Shared::new_from(shared.as_ptr());

    assert_eq!(again.strong_count(&store), 1);
    assert_eq!(*again.borrow(&store), 8);

    let weak: WeakShared<u64> = WeakShared::new_from(shared.as_ptr());
    assert_eq!(weak.strong_count(&store), 1);
}
