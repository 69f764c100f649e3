use wiki::db::store::{CreateError, UpdateError};
use wiki::db::testing::{
    backdate_privileges, clear_verification_probe, set_verification_probe, VerificationCall,
    VerificationProbe,
};
use wiki::db::{CallError, Database, LoginOutcome};

const DAY: i64 = 86_400;

#[test]
fn add_user_and_login_succeeds() {
    let mut db = Database::new();

    db.add_user("alice", "password", 1).expect("add_user failed");

    let outcome = db.login("alice", "password").expect("login failed");
    assert_eq!(outcome.privileges(), Some(1));
    assert_eq!(outcome, LoginOutcome::Granted(1));

    db.close();
}

#[test]
fn login_uses_secure_password_hashing() {
    let mut db = Database::new();

    let username = "dave";
    let password = "correcthorsebatterystaple";

    db.add_user(username, password, 7).expect("add_user failed");

    let stored_password = db
        .store()
        .find_for_login(username)
        .expect("fetch stored password")
        .expect("dave is stored")
        .password_hash;

    assert_ne!(stored_password, password, "password should be hashed");
    assert!(
        stored_password.starts_with("$argon2id$"),
        "unexpected hash format: {stored_password}"
    );

    let outcome = db.login(username, password).expect("login failed");
    assert_eq!(outcome.privileges(), Some(7));

    let wrong = db
        .login(username, "totally-wrong")
        .expect("login with wrong password failed to return");
    assert!(wrong.privileges().is_none());
    assert_eq!(wrong, LoginOutcome::Rejected);

    db.close();
}

#[test]
fn login_with_invalid_credentials_returns_none() {
    let mut db = Database::new();

    db.add_user("alice", "password", 1).expect("add_user failed");

    let outcome = db.login("alice", "wrong-password").expect("login failed");
    assert!(outcome.privileges().is_none());

    db.close();
}

#[test]
fn set_user_privileges_updates_role() {
    let mut db = Database::new();

    db.add_user("bob", "hunter2", 1).expect("add_user failed");

    let user_id = db
        .store()
        .find_for_login("bob")
        .expect("query user id")
        .expect("bob is stored")
        .id;

    db.set_user_privileges(user_id, 2)
        .expect("set_user_privileges failed");

    let outcome = db.login("bob", "hunter2").expect("login failed");
    assert_eq!(outcome.privileges(), Some(2));
    // The anchor was refreshed, so the elevated privilege is not stale.
    assert_eq!(outcome, LoginOutcome::Granted(2));

    db.close();
}

#[test]
fn login_with_stale_privileges_triggers_verification() {
    let mut db = Database::new();

    set_verification_probe(&mut db, VerificationProbe::default());

    db.add_user("carol", "password", 5).expect("add_user failed");

    let user_id = db
        .store()
        .find_for_login("carol")
        .expect("query user id")
        .expect("carol is stored")
        .id;
    assert!(db.attach_external_identity(
        "carol",
        Some(String::from("patreon-carol")),
        Some(String::from("refresh-token")),
    ));
    assert!(backdate_privileges(&mut db, "carol", 31 * DAY));

    let outcome = db.login("carol", "password").expect("login failed");
    assert_eq!(outcome.privileges(), Some(5));
    assert_eq!(outcome, LoginOutcome::GrantedPendingVerification(5));

    let probe = db.verification_probe().as_ref().expect("probe is installed");
    assert!(probe.was_called());
    assert_eq!(probe.call_count(), 1);
    let call = probe.last_call().expect("probe recorded call");
    assert_eq!(call.privileges, 5);
    assert_eq!(call.user_id, user_id);
    assert_eq!(call.patreon_id.as_deref(), Some("patreon-carol"));
    assert_eq!(call.patreon_refresh_token.as_deref(), Some("refresh-token"));

    let taken = clear_verification_probe(&mut db).expect("probe was installed");
    assert_eq!(taken.call_count(), 1);
    assert!(db.verification_probe().is_none());
    db.close();
}

#[test]
fn registering_twice_fails_the_second_time() {
    let mut db = Database::new();
    assert_eq!(db.add_user("alice", "pw1", 1), Ok(()));
    assert_eq!(
        db.add_user("alice", "pw1", 1),
        Err(CallError::Failed(CreateError::DuplicateUsername))
    );
    assert_eq!(
        db.add_user("alice", "other", 4),
        Err(CallError::Failed(CreateError::DuplicateUsername))
    );
    // The first registration stands.
    assert_eq!(db.login("alice", "pw1"), Ok(LoginOutcome::Granted(1)));
    assert_eq!(db.login("alice", "other"), Ok(LoginOutcome::Rejected));
    assert_eq!(db.store().len(), 1);
}

#[test]
fn unknown_user_and_wrong_password_look_the_same() {
    let mut db = Database::new();
    db.add_user("alice", "pw1", 1).unwrap();
    let wrong_password = db.login("alice", "wrong");
    let unknown_user = db.login("mallory", "pw1");
    assert_eq!(wrong_password, Ok(LoginOutcome::Rejected));
    assert_eq!(unknown_user, wrong_password);
}

#[test]
fn set_user_privileges_on_unknown_id_is_not_found() {
    let mut db = Database::new();
    db.add_user("alice", "pw1", 1).unwrap();
    assert_eq!(
        db.set_user_privileges(99, 3),
        Err(CallError::Failed(UpdateError::NotFound))
    );
    assert_eq!(db.login("alice", "pw1"), Ok(LoginOutcome::Granted(1)));
}

#[test]
fn twenty_nine_days_do_not_trigger_verification() {
    let mut db = Database::new();
    set_verification_probe(&mut db, VerificationProbe::new());
    db.add_user("carol", "pw2", 5).unwrap();
    assert!(backdate_privileges(&mut db, "carol", 29 * DAY));
    assert_eq!(db.login("carol", "pw2"), Ok(LoginOutcome::Granted(5)));
    let probe = db.verification_probe().as_ref().unwrap();
    assert!(!probe.was_called());
    assert_eq!(probe.call_count(), 0);
    assert!(probe.last_call().is_none());
}

#[test]
fn baseline_privileges_never_trigger_verification() {
    let mut db = Database::new();
    set_verification_probe(&mut db, VerificationProbe::new());
    db.add_user("root", "pw0", 0).unwrap();
    db.add_user("guest", "pw1", 1).unwrap();
    assert!(backdate_privileges(&mut db, "root", 10_000 * DAY));
    assert!(backdate_privileges(&mut db, "guest", 10_000 * DAY));
    assert_eq!(db.login("root", "pw0"), Ok(LoginOutcome::Granted(0)));
    assert_eq!(db.login("guest", "pw1"), Ok(LoginOutcome::Granted(1)));
    assert!(!db.verification_probe().as_ref().unwrap().was_called());
}

#[test]
fn wrong_password_on_stale_account_does_not_trigger_verification() {
    let mut db = Database::new();
    set_verification_probe(&mut db, VerificationProbe::new());
    db.add_user("carol", "pw2", 5).unwrap();
    assert!(backdate_privileges(&mut db, "carol", 31 * DAY));
    assert_eq!(db.login("carol", "nope"), Ok(LoginOutcome::Rejected));
    assert!(!db.verification_probe().as_ref().unwrap().was_called());
}

#[test]
fn every_stale_login_invokes_the_hook_once() {
    let mut db = Database::new();
    set_verification_probe(&mut db, VerificationProbe::new());
    db.add_user("carol", "pw2", 5).unwrap();
    assert!(backdate_privileges(&mut db, "carol", 31 * DAY));
    assert_eq!(
        db.login("carol", "pw2"),
        Ok(LoginOutcome::GrantedPendingVerification(5))
    );
    assert_eq!(db.verification_probe().as_ref().unwrap().call_count(), 1);
    assert_eq!(
        db.login("carol", "pw2"),
        Ok(LoginOutcome::GrantedPendingVerification(5))
    );
    assert_eq!(db.verification_probe().as_ref().unwrap().call_count(), 2);
    // Confirming the privilege again refreshes the anchor.
    db.set_user_privileges(1, 5).unwrap();
    assert_eq!(db.login("carol", "pw2"), Ok(LoginOutcome::Granted(5)));
    assert_eq!(db.verification_probe().as_ref().unwrap().call_count(), 2);
}

#[test]
fn stale_login_without_probe_is_still_granted() {
    let mut db = Database::new();
    db.add_user("carol", "pw2", 5).unwrap();
    assert!(backdate_privileges(&mut db, "carol", 31 * DAY));
    assert_eq!(
        db.login("carol", "pw2"),
        Ok(LoginOutcome::GrantedPendingVerification(5))
    );
    assert!(db.verification_probe().is_none());
}

#[test]
fn negative_backdating_never_advances_the_anchor() {
    let mut db = Database::new();
    db.add_user("carol", "pw2", 5).unwrap();
    assert!(db.backdate_privileges_at("carol", -500, 1_000));
    let carol = db.store().find_for_login("carol").unwrap().unwrap();
    assert_eq!(carol.privileges_last_updated, Some(1_000));
    assert!(db.backdate_privileges_at("carol", 400, 1_000));
    let carol = db.store().find_for_login("carol").unwrap().unwrap();
    assert_eq!(carol.privileges_last_updated, Some(600));
    assert!(db.backdate_privileges_at("carol", i64::MAX, -10));
    let carol = db.store().find_for_login("carol").unwrap().unwrap();
    assert_eq!(carol.privileges_last_updated, Some(i64::MIN));
    assert!(!db.backdate_privileges_at("nobody", 5, 1_000));
    assert!(!backdate_privileges(&mut db, "nobody", 5));
}

#[test]
fn concrete_scenario_alice_and_carol() {
    let mut db = Database::new();
    set_verification_probe(&mut db, VerificationProbe::new());

    db.add_user("alice", "pw1", 1).unwrap();
    assert_eq!(db.login("alice", "pw1"), Ok(LoginOutcome::Granted(1)));
    assert_eq!(db.login("alice", "wrong"), Ok(LoginOutcome::Rejected));

    db.add_user("carol", "pw2", 5).unwrap();
    let carol_id = db.store().find_for_login("carol").unwrap().unwrap().id;
    assert!(backdate_privileges(&mut db, "carol", 31 * DAY));
    assert!(db.attach_external_identity(
        "carol",
        Some(String::from("pid")),
        Some(String::from("rtok"))
    ));

    assert_eq!(
        db.login("carol", "pw2"),
        Ok(LoginOutcome::GrantedPendingVerification(5))
    );
    let probe = db.verification_probe().as_ref().unwrap();
    assert_eq!(probe.call_count(), 1);
    assert_eq!(
        probe.last_call(),
        Some(VerificationCall {
            privileges: 5,
            user_id: carol_id,
            patreon_id: Some(String::from("pid")),
            patreon_refresh_token: Some(String::from("rtok")),
        })
    );
}

#[test]
fn probe_records_calls_in_order() {
    let mut probe = VerificationProbe::default();
    assert!(!probe.was_called());
    assert_eq!(probe.call_count(), 0);
    assert!(probe.last_call().is_none());
    probe.record_call(VerificationCall {
        privileges: 2,
        user_id: 1,
        patreon_id: None,
        patreon_refresh_token: None,
    });
    probe.record_call(VerificationCall {
        privileges: 3,
        user_id: 4,
        patreon_id: Some(String::from("p")),
        patreon_refresh_token: None,
    });
    assert!(probe.was_called());
    assert_eq!(probe.call_count(), 2);
    let last = probe.last_call().unwrap();
    assert_eq!(last.privileges, 3);
    assert_eq!(last.user_id, 4);
    assert_eq!(last.patreon_id.as_deref(), Some("p"));
    assert_eq!(last.patreon_refresh_token, None);
}

#[test]
fn hook_hands_the_privilege_back_unchanged() {
    let mut slot = Some(VerificationProbe::new());
    let confirmed = wiki::db::verify_privilege(&mut slot, 9, 3, Some(String::from("pid")), None);
    assert_eq!(confirmed, 9);
    let probe = slot.as_ref().unwrap();
    assert_eq!(probe.call_count(), 1);
    assert_eq!(probe.last_call().unwrap().user_id, 3);

    let mut empty = None;
    assert_eq!(wiki::db::verify_privilege(&mut empty, 4, 1, None, None), 4);
    assert!(empty.is_none());
}

#[test]
fn unreadable_anchor_is_granted_and_counted() {
    let erin = wiki::db::store::UserRecord {
        id: 1,
        username: String::from("erin"),
        password_hash: wiki::password::hash_password("pw5").expect("hashing works"),
        privileges: 4,
        privileges_last_updated: None,
        patreon_id: None,
        patreon_refresh_token: None,
    };
    let store = wiki::db::store::CredentialStore::restore(vec![erin]).expect("well formed");
    let mut db = Database::open(store);
    set_verification_probe(&mut db, VerificationProbe::new());
    assert_eq!(db.unreadable_anchors(), 0);

    assert_eq!(db.login("erin", "pw5"), Ok(LoginOutcome::Granted(4)));
    assert_eq!(db.unreadable_anchors(), 1);
    assert!(!db.verification_probe().as_ref().unwrap().was_called());

    // A rejected login never reaches the policy.
    assert_eq!(db.login("erin", "nope"), Ok(LoginOutcome::Rejected));
    assert_eq!(db.unreadable_anchors(), 1);

    // Once the privilege is set again the anchor is readable.
    db.set_user_privileges(1, 4).unwrap();
    assert_eq!(db.login("erin", "pw5"), Ok(LoginOutcome::Granted(4)));
    assert_eq!(db.unreadable_anchors(), 1);
}
