use session_auth::models::store::SessionStore;
use session_auth::models::user::User;

fn account(id: i32, name: &str, email: &str) -> User {
    User {
        id,
        name: name.to_string(),
        email: email.to_string(),
        password: format!("hash of {}", name),
        refresh_token: None,
    }
}

#[test]
fn new_store_is_empty() {
    let store = SessionStore::new();
    assert_eq!(store.len(), 0);
    assert!(store.find_by_id(1).is_none());
    assert!(store.find_by_name("alice").is_none());
    assert!(store.get_refresh_token(1).is_none());
    assert!(store.all().is_empty());
}

#[test]
fn add_hands_out_consecutive_ids_from_one() {
    let mut store = SessionStore::new();
    let a = store.add("alice".to_string(), "a@x.org".to_string(), "ha".to_string());
    let b = store.add("bob".to_string(), "b@x.org".to_string(), "hb".to_string());
    assert_eq!(a, Some(1));
    assert_eq!(b, Some(2));
    assert_eq!(store.len(), 2);
    let alice = store.find_by_id(1).unwrap();
    assert_eq!(alice.name, "alice");
    assert_eq!(alice.email, "a@x.org");
    assert_eq!(alice.password, "ha");
    assert_eq!(alice.refresh_token, None);
    assert_eq!(store.find_by_id(2).unwrap().name, "bob");
}

#[test]
fn insert_keeps_the_id_of_the_account() {
    let mut store = SessionStore::new();
    assert!(store.insert(account(42, "alice", "a@x.org")));
    assert_eq!(store.len(), 1);
    assert_eq!(store.find_by_id(42).unwrap().name, "alice");
    assert!(store.find_by_id(1).is_none());
}

#[test]
fn insert_refuses_an_id_that_is_taken() {
    let mut store = SessionStore::new();
    assert!(store.insert(account(7, "alice", "a@x.org")));
    assert!(!store.insert(account(7, "bob", "b@x.org")));
    assert_eq!(store.len(), 1);
    assert_eq!(store.find_by_id(7).unwrap().name, "alice");
}

#[test]
fn insert_keeps_a_stored_refresh_token() {
    let mut store = SessionStore::new();
    let mut alice = account(3, "alice", "a@x.org");
    alice.refresh_token = Some("r0".to_string());
    assert!(store.insert(alice));
    assert_eq!(store.get_refresh_token(3), Some("r0".to_string()));
}

#[test]
fn add_after_insert_goes_past_the_inserted_id() {
    let mut store = SessionStore::new();
    assert!(store.insert(account(10, "alice", "a@x.org")));
    let id = store.add("bob".to_string(), "b@x.org".to_string(), "hb".to_string());
    assert_eq!(id, Some(11));
    assert!(store.insert(account(5, "carol", "c@x.org")));
    let id = store.add("dave".to_string(), "d@x.org".to_string(), "hd".to_string());
    assert_eq!(id, Some(12));
}

#[test]
fn add_fails_when_ids_are_used_up() {
    let mut store = SessionStore::new();
    assert!(store.insert(account(i32::MAX, "alice", "a@x.org")));
    let id = store.add("bob".to_string(), "b@x.org".to_string(), "hb".to_string());
    assert_eq!(id, None);
    assert_eq!(store.len(), 1);
}

#[test]
fn insert_accepts_ids_that_are_not_positive() {
    let mut store = SessionStore::new();
    assert!(store.insert(account(0, "zero", "z@x.org")));
    assert!(store.insert(account(-4, "minus", "m@x.org")));
    assert!(store.insert(account(i32::MIN, "least", "l@x.org")));
    assert_eq!(store.find_by_id(-4).unwrap().name, "minus");
    let id = store.add("bob".to_string(), "b@x.org".to_string(), "hb".to_string());
    assert_eq!(id, Some(1));
}

#[test]
fn set_then_get_refresh_token() {
    let mut store = SessionStore::new();
    store.add("alice".to_string(), "a@x.org".to_string(), "ha".to_string());
    assert!(store.set_refresh_token(1, "r1".to_string()));
    assert_eq!(store.get_refresh_token(1), Some("r1".to_string()));
    assert_eq!(store.find_by_id(1).unwrap().refresh_token, Some("r1".to_string()));
}

#[test]
fn set_overwrites_the_previous_token() {
    let mut store = SessionStore::new();
    store.add("alice".to_string(), "a@x.org".to_string(), "ha".to_string());
    assert!(store.set_refresh_token(1, "r1".to_string()));
    assert!(store.set_refresh_token(1, "r2".to_string()));
    assert_eq!(store.get_refresh_token(1), Some("r2".to_string()));
}

#[test]
fn set_changes_only_the_token() {
    let mut store = SessionStore::new();
    store.add("alice".to_string(), "a@x.org".to_string(), "ha".to_string());
    assert!(store.set_refresh_token(1, "r1".to_string()));
    let alice = store.find_by_id(1).unwrap();
    assert_eq!(alice.id, 1);
    assert_eq!(alice.name, "alice");
    assert_eq!(alice.email, "a@x.org");
    assert_eq!(alice.password, "ha");
    assert_eq!(store.len(), 1);
}

#[test]
fn set_on_an_unknown_account_stores_nothing() {
    let mut store = SessionStore::new();
    store.add("alice".to_string(), "a@x.org".to_string(), "ha".to_string());
    assert!(!store.set_refresh_token(2, "r1".to_string()));
    assert_eq!(store.get_refresh_token(2), None);
    assert_eq!(store.get_refresh_token(1), None);
    assert_eq!(store.len(), 1);
}

#[test]
fn set_leaves_other_accounts_alone() {
    let mut store = SessionStore::new();
    store.add("alice".to_string(), "a@x.org".to_string(), "ha".to_string());
    store.add("bob".to_string(), "b@x.org".to_string(), "hb".to_string());
    assert!(store.set_refresh_token(1, "ra".to_string()));
    assert!(store.set_refresh_token(2, "rb".to_string()));
    assert!(store.set_refresh_token(1, "ra2".to_string()));
    assert_eq!(store.get_refresh_token(1), Some("ra2".to_string()));
    assert_eq!(store.get_refresh_token(2), Some("rb".to_string()));
}

#[test]
fn clear_empties_the_session() {
    let mut store = SessionStore::new();
    store.add("alice".to_string(), "a@x.org".to_string(), "ha".to_string());
    store.set_refresh_token(1, "r1".to_string());
    assert!(store.clear(1));
    assert_eq!(store.get_refresh_token(1), None);
}

#[test]
fn clear_is_idempotent() {
    let mut store = SessionStore::new();
    store.add("alice".to_string(), "a@x.org".to_string(), "ha".to_string());
    assert!(store.clear(1));
    store.set_refresh_token(1, "r1".to_string());
    assert!(store.clear(1));
    assert!(store.clear(1));
    assert_eq!(store.get_refresh_token(1), None);
    assert_eq!(store.len(), 1);
}

#[test]
fn clear_leaves_other_accounts_alone() {
    let mut store = SessionStore::new();
    store.add("alice".to_string(), "a@x.org".to_string(), "ha".to_string());
    store.add("bob".to_string(), "b@x.org".to_string(), "hb".to_string());
    store.set_refresh_token(1, "ra".to_string());
    store.set_refresh_token(2, "rb".to_string());
    assert!(store.clear(1));
    assert_eq!(store.get_refresh_token(2), Some("rb".to_string()));
}

#[test]
fn clear_on_an_unknown_account_reports_it() {
    let mut store = SessionStore::new();
    assert!(!store.clear(1));
}

#[test]
fn find_by_name_returns_the_account_added_first() {
    let mut store = SessionStore::new();
    store.add("alice".to_string(), "a1@x.org".to_string(), "h1".to_string());
    store.add("bob".to_string(), "b@x.org".to_string(), "hb".to_string());
    store.add("alice".to_string(), "a2@x.org".to_string(), "h2".to_string());
    let found = store.find_by_name("alice").unwrap();
    assert_eq!(found.id, 1);
    assert_eq!(found.email, "a1@x.org");
    assert_eq!(store.find_by_name("bob").unwrap().id, 2);
    assert!(store.find_by_name("carol").is_none());
    assert!(store.find_by_name("Alice").is_none());
    assert!(store.find_by_name("").is_none());
}

#[test]
fn email_in_use_is_exact() {
    let mut store = SessionStore::new();
    assert!(!store.email_in_use("a@x.org"));
    store.add("alice".to_string(), "a@x.org".to_string(), "ha".to_string());
    assert!(store.email_in_use("a@x.org"));
    assert!(!store.email_in_use("A@x.org"));
    assert!(!store.email_in_use("a@x.or"));
}

#[test]
fn all_returns_every_account_in_order() {
    let mut store = SessionStore::new();
    store.add("alice".to_string(), "a@x.org".to_string(), "ha".to_string());
    store.add("bob".to_string(), "b@x.org".to_string(), "hb".to_string());
    store.set_refresh_token(2, "rb".to_string());
    let all = store.all();
    assert_eq!(all.len(), 2);
    assert_eq!(all[0].id, 1);
    assert_eq!(all[0].name, "alice");
    assert_eq!(all[1].id, 2);
    assert_eq!(all[1].refresh_token, Some("rb".to_string()));
}

#[test]
fn clone_of_an_account_keeps_every_field() {
    let mut alice = account(9, "alice", "a@x.org");
    alice.refresh_token = Some("r".to_string());
    let copy = alice.clone();
    assert_eq!(copy.id, 9);
    assert_eq!(copy.name, "alice");
    assert_eq!(copy.email, "a@x.org");
    assert_eq!(copy.password, "hash of alice");
    assert_eq!(copy.refresh_token, Some("r".to_string()));
}
