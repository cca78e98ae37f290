use todo_auth::errors::AuthError;
use todo_auth::store::{User, UserStore};

fn user(id: &str, username: &str, email: &str) -> User {
    User {
        id: id.to_string(),
        username: username.to_string(),
        email: email.to_string(),
        password_hash: "h".to_string(),
        created_at: 1,
        updated_at: 1,
    }
}

#[test]
fn insert_and_find() {
    let mut store = UserStore::new();
    assert_eq!(store.len(), 0);
    store.insert(user("id-1", "alice", "a@x.com")).unwrap();
    assert_eq!(store.len(), 1);

    let by_name = store.find_by_username("alice").unwrap();
    assert_eq!(by_name.id, "id-1");
    assert_eq!(by_name.email, "a@x.com");
    assert!(store.find_by_username("bob").is_none());

    let by_id = store.find_by_id("id-1").unwrap();
    assert_eq!(by_id.username, "alice");
    assert!(store.find_by_id("id-2").is_none());
}

#[test]
fn insert_refuses_every_collision() {
    let mut store = UserStore::new();
    store.insert(user("id-1", "alice", "a@x.com")).unwrap();

    let same_username = store.insert(user("id-2", "alice", "b@x.com"));
    assert!(matches!(same_username, Err(AuthError::UserExists)));
    let same_email = store.insert(user("id-3", "bob", "a@x.com"));
    assert!(matches!(same_email, Err(AuthError::UserExists)));
    let same_id = store.insert(user("id-1", "carol", "c@x.com"));
    assert!(matches!(same_id, Err(AuthError::UserExists)));

    assert_eq!(store.len(), 1);
    store.insert(user("id-4", "dave", "d@x.com")).unwrap();
    assert_eq!(store.len(), 2);
}

#[test]
fn contains_checks_username_and_email() {
    let mut store = UserStore::new();
    store.insert(user("id-1", "alice", "a@x.com")).unwrap();
    assert!(store.contains_username_or_email("alice", "z@x.com"));
    assert!(store.contains_username_or_email("zoe", "a@x.com"));
    assert!(!store.contains_username_or_email("zoe", "z@x.com"));
}
