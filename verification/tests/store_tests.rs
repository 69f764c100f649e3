use wiki::clock::Timestamp;
use wiki::db::store::{
    CreateError, CredentialStore, LoginResult, UpdateError, UserRecord,
};
use wiki::password::{hash_password, hash_with_salt, verify};

fn record(id: i32, username: &str) -> UserRecord {
    UserRecord {
        id,
        username: username.to_string(),
        password_hash: String::from("not-a-hash"),
        privileges: 1,
        privileges_last_updated: Some(10),
        patreon_id: None,
        patreon_refresh_token: None,
    }
}

#[test]
fn insert_assigns_ids_in_order() {
    let mut store = CredentialStore::new();
    assert_eq!(store.len(), 0);
    assert_eq!(store.insert("alice", String::from("h1"), 1, 100), Ok(()));
    assert_eq!(store.insert("bob", String::from("h2"), 3, 200), Ok(()));
    assert_eq!(store.len(), 2);

    let alice = store.find_for_login("alice").unwrap().unwrap();
    assert_eq!(alice.id, 1);
    assert_eq!(alice.username, "alice");
    assert_eq!(alice.password_hash, "h1");
    assert_eq!(alice.privileges, 1);
    assert_eq!(alice.privileges_last_updated, Some(100));
    assert_eq!(alice.patreon_id, None);
    assert_eq!(alice.patreon_refresh_token, None);

    let bob = store.find_for_login("bob").unwrap().unwrap();
    assert_eq!(bob.id, 2);
    assert_eq!(bob.privileges, 3);
    assert_eq!(bob.privileges_last_updated, Some(200));
}

#[test]
fn duplicate_username_fails_and_does_not_overwrite() {
    let mut store = CredentialStore::new();
    assert_eq!(store.insert("alice", String::from("first"), 1, 100), Ok(()));
    assert_eq!(
        store.insert("alice", String::from("second"), 9, 200),
        Err(CreateError::DuplicateUsername)
    );
    assert_eq!(store.len(), 1);
    let alice = store.find_for_login("alice").unwrap().unwrap();
    assert_eq!(alice.password_hash, "first");
    assert_eq!(alice.privileges, 1);
    assert_eq!(alice.privileges_last_updated, Some(100));
}

#[test]
fn usernames_are_compared_exactly() {
    let mut store = CredentialStore::new();
    assert_eq!(store.insert("alice", String::from("h"), 1, 0), Ok(()));
    assert_eq!(store.insert("Alice", String::from("h"), 1, 0), Ok(()));
    assert_eq!(store.insert("alice ", String::from("h"), 1, 0), Ok(()));
    assert_eq!(store.insert("", String::from("h"), 1, 0), Ok(()));
    assert_eq!(store.insert("", String::from("h"), 1, 0), Err(CreateError::DuplicateUsername));
    assert_eq!(store.len(), 4);
}

#[test]
fn full_store_reports_a_storage_error() {
    let store = CredentialStore::restore(vec![record(i32::MAX, "last")]);
    let mut store = store.expect("one record is a valid store");
    assert_eq!(
        store.insert("next", String::from("h"), 1, 0),
        Err(CreateError::StorageError)
    );
    assert_eq!(
        store.insert("last", String::from("h"), 1, 0),
        Err(CreateError::DuplicateUsername)
    );
    assert_eq!(store.len(), 1);
}

#[test]
fn find_for_login_returns_none_for_unknown_user() {
    let mut store = CredentialStore::new();
    assert!(store.find_for_login("nobody").unwrap().is_none());
    store.insert("alice", String::from("h"), 1, 0).unwrap();
    assert!(store.find_for_login("nobody").unwrap().is_none());
}

#[test]
fn set_privileges_overwrites_and_refreshes_anchor() {
    let mut store = CredentialStore::new();
    store.insert("alice", String::from("h1"), 1, 100).unwrap();
    store.insert("bob", String::from("h2"), 1, 100).unwrap();
    assert_eq!(store.set_privileges(2, 7, 5_000), Ok(()));

    let bob = store.find_for_login("bob").unwrap().unwrap();
    assert_eq!(bob.privileges, 7);
    assert_eq!(bob.privileges_last_updated, Some(5_000));
    assert_eq!(bob.password_hash, "h2");

    let alice = store.find_for_login("alice").unwrap().unwrap();
    assert_eq!(alice.privileges, 1);
    assert_eq!(alice.privileges_last_updated, Some(100));
}

#[test]
fn set_privileges_on_unknown_id_is_not_found() {
    let mut store = CredentialStore::new();
    assert_eq!(store.set_privileges(1, 2, 0), Err(UpdateError::NotFound));
    store.insert("alice", String::from("h"), 1, 100).unwrap();
    assert_eq!(store.set_privileges(2, 2, 0), Err(UpdateError::NotFound));
    assert_eq!(store.set_privileges(0, 2, 0), Err(UpdateError::NotFound));
    assert_eq!(store.set_privileges(-1, 2, 0), Err(UpdateError::NotFound));
    let alice = store.find_for_login("alice").unwrap().unwrap();
    assert_eq!(alice.privileges, 1);
    assert_eq!(alice.privileges_last_updated, Some(100));
}

#[test]
fn create_hashes_the_password() {
    let mut store = CredentialStore::new();
    assert_eq!(store.create("dave", "correcthorsebatterystaple", 7, 42), Ok(()));
    let dave = store.find_for_login("dave").unwrap().unwrap();
    assert_ne!(dave.password_hash, "correcthorsebatterystaple");
    assert!(dave.password_hash.starts_with("$argon2id$"));
    assert!(verify("correcthorsebatterystaple", &dave.password_hash));
    assert!(!verify("totally-wrong", &dave.password_hash));
    assert_eq!(dave.privileges, 7);
    assert_eq!(dave.privileges_last_updated, Some(42));
    assert_eq!(
        store.create("dave", "another", 1, 43),
        Err(CreateError::DuplicateUsername)
    );
}

#[test]
fn same_password_is_never_stored_twice_identically() {
    let first = hash_password("shared-password").expect("hashing works");
    let second = hash_password("shared-password").expect("hashing works");
    assert_ne!(first, second);
    assert_ne!(first, "shared-password");
    assert_ne!(second, "shared-password");
    assert!(verify("shared-password", &first));
    assert!(verify("shared-password", &second));
}

#[test]
fn verify_rejects_what_is_not_a_hash() {
    assert!(!verify("password", "password"));
    assert!(!verify("password", ""));
    assert!(!verify("", "$argon2id$"));
}

#[test]
fn hash_string_names_scheme_and_parameters() {
    // The hash string spells out the scheme and its parameters.
    let hash = hash_password("password").expect("hashing works");
    assert!(hash.starts_with("$argon2id$v=19$m=19456,t=2,p=1$"));
    assert!(verify("password", &hash));
    assert!(!verify("Password", &hash));
    assert!(!verify("password ", &hash));
}

#[test]
fn authenticate_decides_by_password_and_staleness() {
    let day = 86_400;
    let mut store = CredentialStore::new();
    store.create("carol", "pw2", 5, 1_000 * day).unwrap();
    assert!(store.set_external_identity(
        "carol",
        Some(String::from("pid")),
        Some(String::from("rtok"))
    ));

    let soon = Timestamp::from_secs(1_029 * day);
    match store.authenticate("carol", "pw2", soon).unwrap() {
        LoginResult::Privileges(Some(5)) => {}
        other => panic!("unexpected result: {:?}", other),
    }
    match store.authenticate("carol", "wrong", soon).unwrap() {
        LoginResult::Privileges(None) => {}
        other => panic!("unexpected result: {:?}", other),
    }
    match store.authenticate("nobody", "pw2", soon).unwrap() {
        LoginResult::Privileges(None) => {}
        other => panic!("unexpected result: {:?}", other),
    }

    let late = Timestamp::from_secs(1_031 * day);
    match store.authenticate("carol", "pw2", late).unwrap() {
        LoginResult::NeedsVerification {
            privileges,
            user_id,
            patreon_id,
            patreon_refresh_token,
        } => {
            assert_eq!(privileges, 5);
            assert_eq!(user_id, 1);
            assert_eq!(patreon_id.as_deref(), Some("pid"));
            assert_eq!(patreon_refresh_token.as_deref(), Some("rtok"));
        }
        other => panic!("unexpected result: {:?}", other),
    }
    // A wrong password is rejected however stale the account is.
    match store.authenticate("carol", "wrong", late).unwrap() {
        LoginResult::Privileges(None) => {}
        other => panic!("unexpected result: {:?}", other),
    }
}

#[test]
fn restore_accepts_well_formed_records() {
    let store = CredentialStore::restore(vec![record(1, "a"), record(2, "b"), record(10, "c")])
        .expect("well formed");
    assert_eq!(store.len(), 3);
    assert_eq!(store.records()[2].id, 10);
    assert_eq!(store.find_for_login("c").unwrap().unwrap().id, 10);

    let mut store = store;
    store.insert("d", String::from("h"), 1, 0).unwrap();
    assert_eq!(store.find_for_login("d").unwrap().unwrap().id, 11);

    assert_eq!(CredentialStore::restore(Vec::new()).expect("empty is fine").len(), 0);
}

#[test]
fn restore_rejects_broken_records() {
    assert!(CredentialStore::restore(vec![record(1, "a"), record(2, "a")]).is_none());
    assert!(CredentialStore::restore(vec![record(1, "a"), record(1, "b")]).is_none());
    assert!(CredentialStore::restore(vec![record(2, "a"), record(1, "b")]).is_none());
    assert!(CredentialStore::restore(vec![record(0, "a")]).is_none());
    assert!(CredentialStore::restore(vec![record(-3, "a")]).is_none());
    assert!(
        CredentialStore::restore(vec![record(1, "a"), record(2, "b"), record(3, "a")]).is_none()
    );
}

#[test]
fn set_anchor_and_external_identity_report_unknown_users() {
    let mut store = CredentialStore::new();
    store.insert("alice", String::from("h"), 2, 100).unwrap();
    assert!(!store.set_anchor("bob", Some(5)));
    assert!(!store.set_external_identity("bob", Some(String::from("x")), None));
    assert!(store.set_anchor("alice", None));
    let alice = store.find_for_login("alice").unwrap().unwrap();
    assert_eq!(alice.privileges_last_updated, None);
    assert_eq!(alice.privileges, 2);
    assert!(store.set_anchor("alice", Some(7)));
    assert_eq!(
        store.find_for_login("alice").unwrap().unwrap().privileges_last_updated,
        Some(7)
    );
}

#[test]
fn hash_is_decided_by_password_and_salt() {
    let salt = "c29tZXNhbHRzb21lc2FsdA";
    let first = hash_with_salt("password", salt).expect("hashing works");
    let second = hash_with_salt("password", salt).expect("hashing works");
    assert_eq!(first, second);
    assert!(first.starts_with("$argon2id$v=19$m=19456,t=2,p=1$c29tZXNhbHRzb21lc2FsdA$"));
    assert_ne!(first, "password");
    assert_ne!(first, salt);
    assert!(verify("password", &first));
    assert!(!verify("Password", &first));

    let other_salt = hash_with_salt("password", "b3RoZXJzYWx0b3RoZXJzYQ").expect("hashing works");
    assert_ne!(first, other_salt);
    assert!(verify("password", &other_salt));

    let other_password = hash_with_salt("passwore", salt).expect("hashing works");
    assert_ne!(first, other_password);
    assert!(!verify("password", &other_password));
}

#[test]
fn what_is_no_salt_gives_no_hash() {
    assert!(hash_with_salt("password", "").is_err());
    assert!(hash_with_salt("password", "abc").is_err());
    assert!(hash_with_salt("password", "not a salt at all!").is_err());
    assert!(hash_with_salt("password", &"a".repeat(65)).is_err());
    assert!(hash_with_salt("", "c29tZXNhbHRzb21lc2FsdA").is_ok());
}
