use user_store::error::StoreError;
use user_store::outcome::{list_outcome, lookup_outcome, write_outcome};
use user_store::table::UserTable;
use user_store::user::User;

fn user(id: u128, name: &str, age: u8) -> User {
    User { id, name: name.to_string(), age }
}

#[test]
fn new_user_keeps_fields_and_gets_random_v4_id() {
    let a = User::new("Ann".to_string(), 30);
    let b = User::new("Ann".to_string(), 30);
    assert_eq!(a.name, "Ann");
    assert_eq!(a.age, 30);
    assert_eq!((a.id >> 76) & 0xF, 4);
    assert_eq!((a.id >> 62) & 0x3, 2);
    assert_ne!(a.id, b.id);
}

#[test]
fn create_then_get_returns_equal_record() {
    let mut t = UserTable::new();
    let u = User::new("Bob".to_string(), 255);
    assert!(t.create_user(u.duplicate()).is_ok());
    let got = t.get_user_by_id(u.id).unwrap();
    assert_eq!(got.id, u.id);
    assert_eq!(got.name, "Bob");
    assert_eq!(got.age, 255);
}

#[test]
fn list_returns_every_created_record() {
    let mut t = UserTable::new();
    assert!(t.get_users().is_empty());
    let created = vec![user(1, "a", 0), user(2, "b", 1), user(3, "c", 2)];
    for u in &created {
        assert!(t.create_user(u.duplicate()).is_ok());
    }
    let listed = t.get_users();
    assert_eq!(listed.len(), 3);
    let mut ids: Vec<u128> = listed.iter().map(|u| u.id).collect();
    ids.sort();
    assert_eq!(ids, vec![1, 2, 3]);
    for u in &created {
        let l = listed.iter().find(|x| x.id == u.id).unwrap();
        assert_eq!(l.name, u.name);
        assert_eq!(l.age, u.age);
    }
}

#[test]
fn delete_twice_succeeds_and_record_is_gone() {
    let mut t = UserTable::new();
    t.create_user(user(7, "x", 5)).unwrap();
    t.create_user(user(8, "y", 6)).unwrap();
    assert!(t.delete_user(7).is_ok());
    assert!(matches!(t.get_user_by_id(7), Err(StoreError::NotFound)));
    assert!(t.delete_user(7).is_ok());
    assert!(matches!(t.get_user_by_id(7), Err(StoreError::NotFound)));
    assert_eq!(t.get_users().len(), 1);
    assert_eq!(t.get_user_by_id(8).unwrap().name, "y");
}

#[test]
fn delete_of_unknown_id_succeeds() {
    let mut t = UserTable::new();
    assert!(t.delete_user(42).is_ok());
    assert!(t.get_users().is_empty());
}

#[test]
fn get_unknown_id_is_not_found() {
    let mut t = UserTable::new();
    t.create_user(User::new("a".to_string(), 1)).unwrap();
    let stranger = User::new("b".to_string(), 2);
    assert!(matches!(t.get_user_by_id(stranger.id), Err(StoreError::NotFound)));
}

#[test]
fn duplicate_id_is_rejected_with_storage_error() {
    let mut t = UserTable::new();
    assert!(t.create_user(user(9, "first", 1)).is_ok());
    assert!(matches!(t.create_user(user(9, "second", 2)), Err(StoreError::Storage(_))));
    let kept = t.get_user_by_id(9).unwrap();
    assert_eq!(kept.name, "first");
    assert_eq!(t.get_users().len(), 1);
}

#[test]
fn lookup_outcome_by_row_count() {
    assert!(matches!(lookup_outcome(vec![]), Err(StoreError::NotFound)));
    let one = lookup_outcome(vec![user(5, "e", 50)]).unwrap();
    assert_eq!(one.id, 5);
    assert_eq!(one.name, "e");
    assert!(matches!(
        lookup_outcome(vec![user(5, "e", 50), user(5, "f", 51)]),
        Err(StoreError::Storage(_))
    ));
}

#[test]
fn write_outcome_ignores_row_count() {
    assert!(write_outcome(Ok(0)).is_ok());
    assert!(write_outcome(Ok(1)).is_ok());
    match write_outcome(Err("disk I/O error".to_string())) {
        Err(StoreError::Storage(m)) => assert_eq!(m, "disk I/O error"),
        _ => panic!("expected a storage error"),
    }
}

#[test]
fn list_outcome_passes_rows_or_storage_error() {
    let rows = list_outcome(Ok(vec![user(1, "a", 1), user(2, "b", 2)])).unwrap();
    assert_eq!(rows.len(), 2);
    assert_eq!(rows[1].name, "b");
    assert!(matches!(list_outcome(Err("closed".to_string())), Err(StoreError::Storage(_))));
}
