use shared_cell::Shared;
use shared_cell::Store;

#[test]
fn clone_shared() {
    let mut store = Store::new();
    let shared1 = Shared::new(&mut store, "Hello".to_string());
    let shared2 = shared1.clone(&mut store);

    assert_eq!(&*shared2.borrow(&store), "Hello");
    assert_eq!(
        shared1.strong_count(&store),
        shared2.strong_count(&store)
    );
    assert_eq!(shared1.strong_count(&store), 2);
}

#[test]
fn clone_weak() {
    let mut store = Store::new();
    let shared = Shared::new(&mut store, "Hello".to_string());
    let weak = shared.downgrade(&mut store);
    let weak2 = weak.clone(&mut store);

    assert_eq!(weak.weak_count(&store), 2);

    let shared2 = weak2.upgrade(&mut store).unwrap();

    assert_eq!(&*shared2.borrow(&store), "Hello");
    assert_eq!(weak.strong_count(&store), 2);
}

#[test]
fn downgrade_and_upgrade() {
    let mut store = Store::new();
    let shared = Shared::new(&mut store, "Hello".to_string());
    let weak = shared.downgrade(&mut store);
    let shared2 = weak.upgrade(&mut store).unwrap();

    assert_eq!(&*shared2.borrow(&store), "Hello");
    assert_eq!(weak.strong_count(&store), 2);
}

#[test]
fn borrow() {
    let mut store = Store::new();
    let shared = Shared::new(&mut store, "Hello".to_string());

    assert_eq!(&*shared.borrow(&store), "Hello");
}

#[test]
fn borrow_mut() {
    let mut store = Store::new();
    let shared = Shared::new(&mut store, "Hello".to_string());

    *shared.borrow_mut(&mut store) += ", world!";

    assert_eq!(&*shared.borrow(&store), "Hello, world!");
}
