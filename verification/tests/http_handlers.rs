use serde_json::Value;
use wiki::db::store::StorageError;
use wiki::db::{CallError, Database, LoginOutcome};
use wiki::user::{
    after_write, login_response, get_jwt_perms, login_handler, register_handler, token_response, HandlerResponse,
    LoginRequest, STATUS_INTERNAL_SERVER_ERROR, STATUS_OK, STATUS_UNAUTHORIZED,
};

const SECRET_KEY: &[u8] = b"a secret that only the tests know";

fn request(username: &str, password: &str) -> LoginRequest {
    LoginRequest::new(username.to_string(), password.to_string())
}

fn to_body_json(response: &HandlerResponse) -> Value {
    serde_json::from_str(&response.body).expect("parse json body")
}

#[test]
fn register_returns_token_and_privileges() {
    let mut db = Database::new();
    let username = "register-success";
    let password = "secret";

    let response = register_handler(&mut db, SECRET_KEY, &request(username, password));
    assert_eq!(response.status, STATUS_OK);

    let body = to_body_json(&response);
    assert!(body.get("token").and_then(Value::as_str).unwrap().len() > 0);
    assert_eq!(body.get("privileges").and_then(Value::as_i64), Some(1));
}

#[test]
fn login_returns_token_for_valid_credentials() {
    let mut db = Database::new();
    let username = "login-success";
    let password = "hunter2";
    let bad_password = "wrong";

    let register_resp = register_handler(&mut db, SECRET_KEY, &request(username, password));
    assert_eq!(register_resp.status, STATUS_OK);

    let response = login_handler(&mut db, SECRET_KEY, &request(username, password));
    assert_eq!(response.status, STATUS_OK);
    let body = to_body_json(&response);
    assert!(body.get("token").and_then(Value::as_str).unwrap().len() > 0);
    assert_eq!(body.get("privileges").and_then(Value::as_i64), Some(1));

    let bad_login = login_handler(&mut db, SECRET_KEY, &request(username, bad_password));
    assert_eq!(bad_login.status, STATUS_UNAUTHORIZED);
}

#[test]
fn register_duplicate_username_returns_error() {
    let mut db = Database::new();
    let username = "register-duplicate";
    let password = "password";

    let first = register_handler(&mut db, SECRET_KEY, &request(username, password));
    assert_eq!(first.status, STATUS_OK);

    let duplicate = register_handler(&mut db, SECRET_KEY, &request(username, password));
    assert_eq!(duplicate.status, STATUS_INTERNAL_SERVER_ERROR);
    assert_eq!(duplicate.body, "Failed to register user");
}

#[test]
fn status_codes_are_the_usual_ones() {
    assert_eq!(STATUS_OK, 200);
    assert_eq!(STATUS_UNAUTHORIZED, 401);
    assert_eq!(STATUS_INTERNAL_SERVER_ERROR, 500);
}

#[test]
fn refused_logins_are_all_answered_alike() {
    let mut db = Database::new();
    register_handler(&mut db, SECRET_KEY, &request("alice", "pw1"));

    let wrong_password = login_handler(&mut db, SECRET_KEY, &request("alice", "nope"));
    let unknown_user = login_handler(&mut db, SECRET_KEY, &request("mallory", "pw1"));
    assert_eq!(wrong_password.status, STATUS_UNAUTHORIZED);
    assert_eq!(wrong_password.body, "Invalid username or password");
    assert_eq!(unknown_user.status, wrong_password.status);
    assert_eq!(unknown_user.body, wrong_password.body);

}

#[test]
fn a_closed_database_makes_a_server_error() {
    let mut db = Database::new();
    register_handler(&mut db, SECRET_KEY, &request("alice", "pw1"));
    db.close();
    let login = login_handler(&mut db, SECRET_KEY, &request("alice", "pw1"));
    assert_eq!(login.status, STATUS_INTERNAL_SERVER_ERROR);
    assert_eq!(login.body, "Database is not available");
    let wrong = login_handler(&mut db, SECRET_KEY, &request("alice", "nope"));
    assert_eq!(wrong.status, STATUS_INTERNAL_SERVER_ERROR);
    let register = register_handler(&mut db, SECRET_KEY, &request("bob", "pw2"));
    assert_eq!(register.status, STATUS_INTERNAL_SERVER_ERROR);
    assert_eq!(register.body, "Failed to register user");
}

#[test]
fn a_failed_write_takes_the_registration_back() {
    let mut db = Database::new();
    let first = register_handler(&mut db, SECRET_KEY, &request("alice", "pw1"));
    assert_eq!(first.status, STATUS_OK);
    let written = wiki::db::store::CredentialStore::restore(db.store().records().clone())
        .expect("what was written is a store");

    let second = register_handler(&mut db, SECRET_KEY, &request("bob", "pw2"));
    assert_eq!(second.status, STATUS_OK);
    assert_eq!(db.store().len(), 2);

    // The write of bob fails: the storage still holds alice alone.
    let answer = after_write(&mut db, second, Some(written));
    assert_eq!(answer.status, STATUS_INTERNAL_SERVER_ERROR);
    assert_eq!(answer.body, "Failed to write to storage");
    assert_eq!(db.store().len(), 1);
    assert!(db.store().find_for_login("bob").unwrap().is_none());
    assert_eq!(
        login_handler(&mut db, SECRET_KEY, &request("bob", "pw2")).status,
        STATUS_UNAUTHORIZED
    );

    // A write that goes through leaves response and store as they are.
    let third = register_handler(&mut db, SECRET_KEY, &request("bob", "pw2"));
    let body = third.body.clone();
    let answer = after_write(&mut db, third, None);
    assert_eq!(answer.status, STATUS_OK);
    assert_eq!(answer.body, body);
    assert_eq!(db.store().len(), 2);
}

#[test]
fn root_is_registered_as_administrator() {
    let mut db = Database::new();
    let response = register_handler(&mut db, SECRET_KEY, &request("root", "toor"));
    assert_eq!(response.status, STATUS_OK);
    let body = to_body_json(&response);
    assert_eq!(body.get("privileges").and_then(Value::as_i64), Some(0));
    let token = body.get("token").and_then(Value::as_str).unwrap();
    assert_eq!(get_jwt_perms(token, SECRET_KEY), Some(0));
    assert_eq!(db.store().find_for_login("root").unwrap().unwrap().privileges, 0);
}

#[test]
fn token_in_the_response_carries_the_privilege() {
    let mut db = Database::new();
    db.add_user("erin", "pw5", 4).unwrap();
    let response = login_handler(&mut db, SECRET_KEY, &request("erin", "pw5"));
    assert_eq!(response.status, STATUS_OK);
    let body = to_body_json(&response);
    assert_eq!(body.get("privileges").and_then(Value::as_i64), Some(4));
    let token = body.get("token").and_then(Value::as_str).unwrap();
    assert_eq!(get_jwt_perms(token, SECRET_KEY), Some(4));
    assert_eq!(get_jwt_perms(token, b"some other secret"), None);
}

#[test]
fn token_response_body_is_compact_json() {
    let refused = token_response("alice", None, SECRET_KEY, 1_700_000_000);
    assert_eq!(refused.status, STATUS_UNAUTHORIZED);
    assert_eq!(refused.body, "Invalid username or password");

    let granted = token_response("alice", Some(3), SECRET_KEY, 1_700_000_000);
    assert_eq!(granted.status, STATUS_OK);
    let token = wiki::user::issue_token("alice", 3, SECRET_KEY, 1_700_000_000).unwrap();
    assert_eq!(granted.body, format!("{{\"token\":\"{}\",\"privileges\":3}}", token));
}

#[test]
fn login_response_follows_the_answer_of_the_database() {
    let rejected = login_response("alice", Ok(LoginOutcome::Rejected), SECRET_KEY, 1_700_000_000);
    assert_eq!(rejected.status, STATUS_UNAUTHORIZED);
    assert_eq!(rejected.body, "Invalid username or password");

    let closed = login_response("alice", Err(CallError::Closed), SECRET_KEY, 1_700_000_000);
    assert_eq!(closed.status, STATUS_INTERNAL_SERVER_ERROR);
    assert_eq!(closed.body, "Database is not available");
    let failed =
        login_response("alice", Err(CallError::Failed(StorageError)), SECRET_KEY, 1_700_000_000);
    assert_eq!(failed.status, STATUS_INTERNAL_SERVER_ERROR);

    let granted = login_response("alice", Ok(LoginOutcome::Granted(3)), SECRET_KEY, 1_700_000_000);
    let pending = login_response(
        "alice",
        Ok(LoginOutcome::GrantedPendingVerification(3)),
        SECRET_KEY,
        1_700_000_000,
    );
    assert_eq!(granted.status, STATUS_OK);
    assert_eq!(granted.body, pending.body);
    assert_eq!(
        granted.body,
        token_response("alice", Some(3), SECRET_KEY, 1_700_000_000).body
    );
}
