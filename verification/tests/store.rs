use user_store::store::RecordStore;
use user_store::user::User;

fn user(id: u32, name: &str) -> User {
    User::new(id, name.to_string())
}

fn three() -> RecordStore {
    RecordStore::with_records(vec![user(1, "Ada"), user(2, "Bob"), user(3, "Cy")])
}

#[test]
fn new_store_is_empty() {
    let store = RecordStore::new();
    assert_eq!(store.len(), 0);
    assert_eq!(store.find(0), None);
    assert_eq!(store.find(1), None);
}

#[test]
fn seeded_store_holds_the_two_initial_records() {
    let store = RecordStore::seeded();
    assert_eq!(store.len(), 2);
    assert_eq!(store.find(1), Some(user(1, "Hassan")));
    assert_eq!(store.find(2), Some(user(2, "Hanzala")));
}

#[test]
fn with_records_keeps_the_order_given() {
    let store = RecordStore::with_records(vec![user(7, "first"), user(7, "second")]);
    assert_eq!(store.len(), 2);
    assert_eq!(store.find(7), Some(user(7, "first")));
}

#[test]
fn clone_of_a_record_is_equal_to_it() {
    let u = user(42, "Grace");
    let c = u.clone();
    assert_eq!(c, u);
    assert_eq!(c.id, 42);
    assert_eq!(c.name, "Grace");
}

#[test]
fn find_after_insert_returns_the_record() {
    let mut store = RecordStore::seeded();
    let u = user(3, "Imran");
    let echoed = store.insert(u.clone());
    assert_eq!(echoed, u);
    assert_eq!(store.find(3), Some(u));
    assert_eq!(store.len(), 3);
}

#[test]
fn find_of_an_absent_id_is_none_every_time() {
    let store = RecordStore::seeded();
    for _ in 0..5 {
        assert_eq!(store.find(99), None);
        assert_eq!(store.find(0), None);
        assert_eq!(store.find(u32::MAX), None);
    }
    assert_eq!(store.len(), 2);
}

#[test]
fn insert_accepts_any_id_and_any_name() {
    let mut store = RecordStore::new();
    store.insert(user(0, ""));
    store.insert(user(u32::MAX, "名前 \u{1F600} \n\t\"quoted\""));
    assert_eq!(store.len(), 2);
    assert_eq!(store.find(0), Some(user(0, "")));
    assert_eq!(
        store.find(u32::MAX),
        Some(user(u32::MAX, "名前 \u{1F600} \n\t\"quoted\""))
    );
}

#[test]
fn insert_does_not_check_uniqueness() {
    let mut store = RecordStore::seeded();
    let echoed = store.insert(user(1, "Shadowed"));
    assert_eq!(echoed, user(1, "Shadowed"));
    assert_eq!(store.len(), 3);
    assert_eq!(store.find(1), Some(user(1, "Hassan")));
}

#[test]
fn replace_preserves_the_other_records() {
    let mut store = three();
    let stored = store.replace(2, user(2, "Bea"));
    assert_eq!(stored, Some(user(2, "Bea")));
    assert_eq!(store.len(), 3);
    assert_eq!(store.find(1), Some(user(1, "Ada")));
    assert_eq!(store.find(2), Some(user(2, "Bea")));
    assert_eq!(store.find(3), Some(user(3, "Cy")));
}

#[test]
fn replace_of_an_absent_id_changes_nothing() {
    let mut store = three();
    assert_eq!(store.replace(4, user(4, "Dee")), None);
    assert_eq!(store.len(), 3);
    assert_eq!(store.find(4), None);
    assert_eq!(store.find(1), Some(user(1, "Ada")));
    assert_eq!(store.find(2), Some(user(2, "Bob")));
    assert_eq!(store.find(3), Some(user(3, "Cy")));
}

#[test]
fn replace_may_change_the_id_of_the_record() {
    let mut store = three();
    let stored = store.replace(2, user(9, "Moved"));
    assert_eq!(stored, Some(user(9, "Moved")));
    assert_eq!(store.len(), 3);
    assert_eq!(store.find(2), None);
    assert_eq!(store.find(9), Some(user(9, "Moved")));
}

#[test]
fn replace_with_an_id_held_later_shadows_the_later_record() {
    let mut store = three();
    assert_eq!(store.replace(2, user(3, "Early")), Some(user(3, "Early")));
    assert_eq!(store.find(3), Some(user(3, "Early")));
    assert_eq!(store.find(1), Some(user(1, "Ada")));
    assert!(store.remove(3));
    assert_eq!(store.find(3), Some(user(3, "Cy")));
}

#[test]
fn replace_with_an_id_held_earlier_stays_shadowed() {
    let mut store = three();
    assert_eq!(store.replace(2, user(1, "Late")), Some(user(1, "Late")));
    assert_eq!(store.find(1), Some(user(1, "Ada")));
    assert_eq!(store.find(2), None);
}

#[test]
fn replace_overwrites_only_the_first_of_two_equal_ids() {
    let mut store = RecordStore::with_records(vec![user(5, "a"), user(5, "b")]);
    assert_eq!(store.replace(5, user(6, "c")), Some(user(6, "c")));
    assert_eq!(store.find(5), Some(user(5, "b")));
    assert_eq!(store.find(6), Some(user(6, "c")));
    assert_eq!(store.len(), 2);
}

#[test]
fn remove_shrinks_by_exactly_one_and_a_second_remove_fails() {
    let mut store = three();
    assert!(store.find(2).is_some());
    assert!(store.remove(2));
    assert_eq!(store.len(), 2);
    assert!(!store.remove(2));
    assert_eq!(store.len(), 2);
    assert_eq!(store.find(2), None);
    assert_eq!(store.find(1), Some(user(1, "Ada")));
    assert_eq!(store.find(3), Some(user(3, "Cy")));
}

#[test]
fn remove_of_an_absent_id_changes_nothing() {
    let mut store = RecordStore::seeded();
    assert!(!store.remove(3));
    assert_eq!(store.len(), 2);
    assert_eq!(store.find(1), Some(user(1, "Hassan")));
    assert_eq!(store.find(2), Some(user(2, "Hanzala")));
}

#[test]
fn remove_takes_the_first_of_two_equal_ids() {
    let mut store = RecordStore::with_records(vec![user(1, "a"), user(1, "b")]);
    assert!(store.remove(1));
    assert_eq!(store.len(), 1);
    assert_eq!(store.find(1), Some(user(1, "b")));
    assert!(store.remove(1));
    assert_eq!(store.len(), 0);
    assert!(!store.remove(1));
}

#[test]
fn remove_from_an_empty_store_fails() {
    let mut store = RecordStore::new();
    assert!(!store.remove(1));
    assert_eq!(store.len(), 0);
}

#[test]
fn many_inserts_are_all_found() {
    let mut store = RecordStore::seeded();
    for id in 10..60u32 {
        store.insert(user(id, &format!("user-{id}")));
    }
    assert_eq!(store.len(), 52);
    for id in 10..60u32 {
        assert_eq!(store.find(id), Some(user(id, &format!("user-{id}"))));
    }
}
