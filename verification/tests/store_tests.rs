use user_store::rows::{StoreError, UserRow};
use user_store::store::Store;

fn setup_db() -> Store {
    let mut store = match Store::open_in_memory() {
        Ok(s) => s,
        Err(_) => panic!("opening an in-memory store should succeed"),
    };
    assert!(store.ensure_schema().is_ok());
    store
}

fn all_rows(store: &Store) -> Vec<UserRow> {
    match store.list_users() {
        Ok(rows) => rows,
        Err(_) => panic!("listing should succeed"),
    }
}

#[test]
fn test_add_user() {
    let mut store = setup_db();

    assert!(store.add_user(&"Alice".to_string(), 30, &"123 Street".to_string()).is_ok());

    let mut found = false;
    for user in all_rows(&store) {
        if user.name == "Alice" {
            assert_eq!(user.name, "Alice");
            assert_eq!(user.age, 30);
            assert_eq!(user.address, "123 Street");
            found = true;
        }
    }
    assert!(found, "User Alice should have been found");
}

#[test]
fn test_update_user() {
    let mut store = setup_db();
    assert!(store.add_user(&"Bob".to_string(), 25, &"456 Lane".to_string()).is_ok());

    let user_id = all_rows(&store)[0].id;
    assert!(store.update_user(user_id, &"Bobby".to_string(), 26, &"789 Road".to_string()).is_ok());

    let mut found = false;
    for user in all_rows(&store) {
        if user.id == user_id {
            assert_eq!(user.name, "Bobby");
            assert_eq!(user.age, 26);
            assert_eq!(user.address, "789 Road");
            found = true;
        }
    }
    assert!(found, "Updated user should have been found");
}

#[test]
fn test_delete_user() {
    let mut store = setup_db();
    assert!(store.add_user(&"Charlie".to_string(), 35, &"101 Ave".to_string()).is_ok());

    let user_id = all_rows(&store)[0].id;
    assert!(store.delete_user(user_id).is_ok());

    let deleted = all_rows(&store).iter().all(|u| u.id != user_id);
    assert!(deleted, "User Charlie should have been deleted");
}

#[test]
fn test_list_users() {
    let mut store = setup_db();
    assert!(store.add_user(&"David".to_string(), 40, &"202 Blvd".to_string()).is_ok());
    assert!(store.add_user(&"Eve".to_string(), 45, &"303 Cir".to_string()).is_ok());

    let mut count = 0;
    for user in all_rows(&store) {
        assert!(["David", "Eve"].contains(&user.name.as_str()));
        count += 1;
    }
    assert_eq!(count, 2, "Should have listed 2 users");
}

#[test]
fn create_update_delete_scenario() {
    let mut store = setup_db();

    assert!(store.add_user(&"Alice".to_string(), 30, &"123 Street".to_string()).is_ok());
    let rows = all_rows(&store);
    assert_eq!(rows.len(), 1);
    assert_eq!(rows[0].id, 1);
    assert_eq!(rows[0].name, "Alice");
    assert_eq!(rows[0].age, 30);
    assert_eq!(rows[0].address, "123 Street");

    assert!(store.update_user(1, &"Alicia".to_string(), 31, &"124 Street".to_string()).is_ok());
    let rows = all_rows(&store);
    assert_eq!(rows.len(), 1);
    assert_eq!(rows[0].id, 1);
    assert_eq!(rows[0].name, "Alicia");
    assert_eq!(rows[0].age, 31);
    assert_eq!(rows[0].address, "124 Street");

    assert!(store.delete_user(1).is_ok());
    assert_eq!(all_rows(&store).len(), 0);
}

#[test]
fn multi_row_listing_keeps_every_field() {
    let mut store = setup_db();
    assert!(store.add_user(&"David".to_string(), 40, &"202 Blvd".to_string()).is_ok());
    assert!(store.add_user(&"Eve".to_string(), 45, &"303 Cir".to_string()).is_ok());

    let rows = all_rows(&store);
    assert_eq!(rows.len(), 2);
    assert!(rows.iter().any(|u| u.name == "David" && u.age == 40 && u.address == "202 Blvd"));
    assert!(rows.iter().any(|u| u.name == "Eve" && u.age == 45 && u.address == "303 Cir"));
    assert_ne!(rows[0].id, rows[1].id, "ids must be distinct");
}

#[test]
fn create_assigns_fresh_id() {
    let mut store = setup_db();
    assert!(store.add_user(&"Alice".to_string(), 30, &"123 Street".to_string()).is_ok());
    assert!(store.add_user(&"Bob".to_string(), 25, &"456 Lane".to_string()).is_ok());

    let rows = all_rows(&store);
    assert_eq!(rows.len(), 2);
    let first = rows.iter().find(|u| u.name == "Alice").map(|u| u.id);
    let second = rows.iter().find(|u| u.name == "Bob").map(|u| u.id);
    assert_eq!(first, Some(1));
    assert_eq!(second, Some(2));
}

#[test]
fn update_on_absent_id_is_noop() {
    let mut store = setup_db();
    assert!(store.add_user(&"Alice".to_string(), 30, &"123 Street".to_string()).is_ok());

    assert!(store.update_user(99, &"Nobody".to_string(), 1, &"Nowhere".to_string()).is_ok());

    let rows = all_rows(&store);
    assert_eq!(rows.len(), 1);
    assert_eq!(rows[0].name, "Alice");
    assert_eq!(rows[0].age, 30);
    assert_eq!(rows[0].address, "123 Street");
}

#[test]
fn delete_on_absent_id_is_noop() {
    let mut store = setup_db();
    assert!(store.add_user(&"Alice".to_string(), 30, &"123 Street".to_string()).is_ok());

    assert!(store.delete_user(99).is_ok());

    let rows = all_rows(&store);
    assert_eq!(rows.len(), 1);
    assert_eq!(rows[0].name, "Alice");
}

#[test]
fn delete_removes_exactly_one_row() {
    let mut store = setup_db();
    assert!(store.add_user(&"Alice".to_string(), 30, &"123 Street".to_string()).is_ok());
    assert!(store.add_user(&"Bob".to_string(), 25, &"456 Lane".to_string()).is_ok());

    let bob_id = all_rows(&store).iter().find(|u| u.name == "Bob").map(|u| u.id).unwrap();
    assert!(store.delete_user(bob_id).is_ok());

    let rows = all_rows(&store);
    assert_eq!(rows.len(), 1);
    assert!(rows.iter().all(|u| u.id != bob_id));
    assert_eq!(rows[0].name, "Alice");
}

#[test]
fn schema_creation_is_idempotent() {
    let mut store = match Store::open_in_memory() {
        Ok(s) => s,
        Err(_) => panic!("opening an in-memory store should succeed"),
    };
    assert!(store.ensure_schema().is_ok());
    assert!(store.add_user(&"Alice".to_string(), 30, &"123 Street".to_string()).is_ok());

    assert!(store.ensure_schema().is_ok(), "second schema creation must not fail");

    let rows = all_rows(&store);
    assert_eq!(rows.len(), 1, "second schema creation must not touch the table");
    assert_eq!(rows[0].name, "Alice");
}

#[test]
fn empty_name_is_rejected() {
    let mut store = setup_db();
    let r = store.add_user(&"".to_string(), 30, &"123 Street".to_string());
    assert!(matches!(r, Err(StoreError::EmptyField)));
    assert_eq!(all_rows(&store).len(), 0);
}

#[test]
fn empty_address_is_rejected() {
    let mut store = setup_db();
    let r = store.add_user(&"Alice".to_string(), 30, &"".to_string());
    assert!(matches!(r, Err(StoreError::EmptyField)));
    assert_eq!(all_rows(&store).len(), 0);
}
