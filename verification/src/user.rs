//! Login and registration as the HTTP layer sees them, and the signed
//! privilege tokens that a successful login hands out.

use vstd::prelude::*;
use crate::clock::{Timestamp, NANOS_PER_SEC};
use crate::db::lemmas::{
    lemma_login_after_backdating, lemma_login_after_register, lemma_login_after_set_privileges,
};
use crate::policy::{elapsed_nanos, STALE_AFTER_SECS};
use crate::db::store::{
    granted_privilege, has_username, lemma_lookup_at, new_row, next_id, text_of,
    verification_args, with_anchor, CredentialStore, StorageError,
};
use crate::db::{
    add_user_spec, backdated, call_spec, hooked, idle, login_answer, process_spec, state_wf,
    CallError, Database, DatabaseState, LoginOutcome, RequestView,
};
use crate::password::{argon2_phc, password_verifies};
use crate::text::same_text;

verus! {

/// `jsonwebtoken::errors::Error`: why a token was not produced or not
/// accepted. The library does not look inside.
#[verifier::external_type_specification]
#[verifier::external_body]
pub struct ExTokenError(jsonwebtoken::errors::Error);

/// `serde_json::Error`: why a value was not written as JSON. The library
/// does not look inside.
#[verifier::external_type_specification]
#[verifier::external_body]
pub struct ExJsonError(serde_json::Error);

/// How long a token stays valid after it was issued, in seconds.
pub const TOKEN_LIFETIME_SECS: u64 = 86_400;

/// The privilege of the administrator.
pub const ADMIN_PRIVILEGES: i32 = 0;

/// The privilege of a guest and of every newly registered user.
pub const BASIC_PRIVILEGES: i32 = 1;

/// Status of a successful response.
pub const STATUS_OK: u16 = 200;

/// Status of a response to credentials that were not accepted.
pub const STATUS_UNAUTHORIZED: u16 = 401;

/// Status of a response to a request that the server could not carry out.
pub const STATUS_INTERNAL_SERVER_ERROR: u16 = 500;

/// The body of a login or registration request.
#[derive(Debug)]
pub struct LoginRequest {
    username: String,
    password: String,
}

impl LoginRequest {
    /// The name as the contracts see it.
    pub closed spec fn spec_username(&self) -> Seq<char> {
        self.username@
    }

    /// The password as the contracts see it.
    pub closed spec fn spec_password(&self) -> Seq<char> {
        self.password@
    }

    /// A request with the given credentials.
    pub fn new(username: String, password: String) -> (request: LoginRequest)
        ensures
            request.spec_username() == username@,
            request.spec_password() == password@,
    {
        LoginRequest { username, password }
    }

    /// The name that the request gives.
    pub fn username(&self) -> (name: &str)
        ensures
            name@ == self.spec_username(),
    {
        self.username.as_str()
    }

    /// The password that the request gives.
    pub fn password(&self) -> (password: &str)
        ensures
            password@ == self.spec_password(),
    {
        self.password.as_str()
    }
}

/// What a handler answers: a status code and a body.
#[derive(Debug)]
pub struct HandlerResponse {
    pub status: u16,
    pub body: String,
}

impl View for HandlerResponse {
    type V = (u16, Seq<char>);

    open spec fn view(&self) -> (u16, Seq<char>) {
        (self.status, self.body@)
    }
}

/// The claims that were found in a token whose signature and expiry were
/// accepted. A claim that is missing or of another type is `None`.
#[derive(Debug)]
pub struct TokenClaims {
    pub sub: Option<String>,
    pub privileges: Option<i64>,
    pub exp: Option<u64>,
}

/// The mathematical content of [`TokenClaims`].
pub ghost struct ClaimsView {
    pub sub: Option<Seq<char>>,
    pub privileges: Option<i64>,
    pub exp: Option<u64>,
}

impl View for TokenClaims {
    type V = ClaimsView;

    open spec fn view(&self) -> ClaimsView {
        ClaimsView { sub: text_of(self.sub), privileges: self.privileges, exp: self.exp }
    }
}

/// A token could not be produced.
#[derive(Clone, Copy, Debug, PartialEq, Eq, Structural)]
pub struct TokenError;

/// The token that `jsonwebtoken::encode` produces under HS256 for the
/// claims `sub`, `privileges` and `exp`, in this order, signed with
/// `secret`; `None` where it produces none.
pub uninterp spec fn signed_token(sub: Seq<char>, privileges: i32, exp: u64, secret: Seq<u8>) -> Option<
    Seq<char>,
>;

/// The JSON text that `serde_json::to_string` produces for an object with
/// the members `token` and `privileges`, in this order; `None` where it
/// produces none.
pub uninterp spec fn response_json(token: Seq<char>, privileges: i32) -> Option<Seq<char>>;

/// Calls `jsonwebtoken::encode` with the default header (HS256), a JSON
/// object whose members `sub`, `privileges` and `exp` hold the three
/// claims, and `secret` as the key. The contract only names the result:
/// signing is a function of the claims and the key.
#[verifier::external_body]
fn hs256_encode(sub: &str, privileges: i32, exp: u64, secret: &[u8]) -> (r: Result<
    String,
    jsonwebtoken::errors::Error,
>)
    ensures
        match r {
            Ok(token) => signed_token(sub@, privileges, exp, secret@) == Some(token@),
            Err(_) => signed_token(sub@, privileges, exp, secret@) is None,
        },
{
    let mut claims = serde_json::Map::new();
    claims.insert("sub".to_string(), serde_json::Value::from(sub));
    claims.insert("privileges".to_string(), serde_json::Value::from(privileges));
    claims.insert("exp".to_string(), serde_json::Value::from(exp));
    let key = jsonwebtoken::EncodingKey::from_secret(secret);
    jsonwebtoken::encode(&jsonwebtoken::Header::default(), &claims, &key)
}

/// What `jsonwebtoken::decode` makes of `token` under the key `secret` and
/// its default validation (HS256, the signature checked, `exp` required)
/// when the comparison of `exp` with the clock is left out: the members
/// `sub`, `privileges` and `exp` of the decoded claims, or `None` where the
/// token is refused for its shape, its signature or its claims. This is
/// what the token says for as long as it has not expired.
pub uninterp spec fn signed_claims(token: Seq<char>, secret: Seq<u8>) -> Option<ClaimsView>;

/// Calls `jsonwebtoken::decode` with the default validation (HS256, the
/// signature checked, `exp` required and compared with the current time)
/// and picks the members `sub`, `privileges` and `exp` out of the decoded
/// object. Like `chrono`, `jsonwebtoken` does not return where the system
/// clock reads before 1970. Whether a token is accepted depends on the
/// clock, so the
/// contract does not say when it is. It says what comes back where the
/// token is accepted: `decode` reads the clock only to refuse a token that
/// has expired, so the claims it hands out are the ones it would hand out
/// without that comparison.
#[verifier::external_body]
fn hs256_decode(token: &str, secret: &[u8]) -> (r: Result<TokenClaims, jsonwebtoken::errors::Error>)
    ensures
        r matches Ok(claims) ==> signed_claims(token@, secret@) == Some(claims@),
{
    let key = jsonwebtoken::DecodingKey::from_secret(secret);
    let validation = jsonwebtoken::Validation::default();
    let data = jsonwebtoken::decode::<serde_json::Value>(token, &key, &validation)?;
    Ok(
        TokenClaims {
            sub: data.claims.get("sub").and_then(|v| v.as_str()).map(|s| s.to_string()),
            privileges: data.claims.get("privileges").and_then(|v| v.as_i64()),
            exp: data.claims.get("exp").and_then(|v| v.as_u64()),
        },
    )
}

/// Calls `serde_json::to_string` on a JSON object with the members `token`
/// and `privileges`. The contract only names the result.
#[verifier::external_body]
fn login_response_json(token: &str, privileges: i32) -> (r: Result<String, serde_json::Error>)
    ensures
        match r {
            Ok(json) => response_json(token@, privileges) == Some(json@),
            Err(_) => response_json(token@, privileges) is None,
        },
{
    let mut body = serde_json::Map::new();
    body.insert("token".to_string(), serde_json::Value::from(token));
    body.insert("privileges".to_string(), serde_json::Value::from(privileges));
    serde_json::to_string(&body)
}

/// The current time in whole seconds since the Unix epoch, as tokens
/// count it.
pub fn get_current_timestamp() -> (secs: u64)
    ensures
        secs <= i64::MAX,
{
    Timestamp::now().unix_seconds()
}

/// When a token issued at `issued_at` expires.
pub open spec fn expiry(issued_at: u64) -> u64 {
    if issued_at + TOKEN_LIFETIME_SECS > u64::MAX {
        u64::MAX
    } else {
        (issued_at + TOKEN_LIFETIME_SECS) as u64
    }
}

/// Issues a token for `username` with `privileges` that expires 24 hours
/// after `issued_at`.
pub fn issue_token(username: &str, privileges: i32, secret: &[u8], issued_at: u64) -> (r: Result<
    String,
    TokenError,
>)
    ensures
        match r {
            Ok(token) => signed_token(username@, privileges, expiry(issued_at), secret@) == Some(
                token@,
            ),
            Err(_) => signed_token(username@, privileges, expiry(issued_at), secret@) is None,
        },
{
    let exp = issued_at.saturating_add(TOKEN_LIFETIME_SECS);
    match hs256_encode(username, privileges, exp, secret) {
        Ok(token) => Ok(token),
        Err(_) => Err(TokenError),
    }
}

/// Issues a token for `username` with `privileges` that expires 24 hours
/// from now.
pub fn create_jwt(username: &str, privileges: i32, secret: &[u8]) -> (r: Result<String, TokenError>)
    ensures
        exists|issued_at: u64|
            match r {
                Ok(token) => #[trigger] signed_token(
                    username@,
                    privileges,
                    expiry(issued_at),
                    secret@,
                ) == Some(token@),
                Err(_) => signed_token(username@, privileges, expiry(issued_at), secret@) is None,
            },
{
    issue_token(username, privileges, secret, get_current_timestamp())
}

/// The privilege that a set of claims gives: all three claims have to be
/// there, and the privilege has to be a 32-bit integer.
pub open spec fn privileges_claimed(claims: ClaimsView) -> Option<i32> {
    match claims.privileges {
        Some(p) => if claims.sub is Some && claims.exp is Some && i32::MIN <= p <= i32::MAX {
            Some(p as i32)
        } else {
            None
        },
        None => None,
    }
}

/// The privilege that the claims of an accepted token give.
pub fn claimed_privileges(claims: &TokenClaims) -> (r: Option<i32>)
    ensures
        r == privileges_claimed(claims@),
{
    if claims.sub.is_none() || claims.exp.is_none() {
        return None;
    }
    match claims.privileges {
        Some(p) => {
            if p < -2_147_483_648 || p > 2_147_483_647 {
                None
            } else {
                Some(p as i32)
            }
        },
        None => None,
    }
}

/// The privilege that a bearer token stands for as long as it has not
/// expired. The word `guest` needs no signature and stands for the basic
/// privilege. Any other token stands for the privilege that its claims
/// give, if it is signed with `secret` and complete, and for none if not.
pub open spec fn token_privileges(jwt: Seq<char>, secret: Seq<u8>) -> Option<i32> {
    if jwt == "guest"@ {
        Some(BASIC_PRIVILEGES)
    } else {
        match signed_claims(jwt, secret) {
            Some(claims) => privileges_claimed(claims),
            None => None,
        }
    }
}

/// The privilege that a bearer token stands for. The word `guest` is
/// accepted without a signature and gives the basic privilege. Any other
/// token has to be signed with `secret`, unexpired and complete; one that
/// is not gives `None`. So the answer is the privilege that the token
/// stands for, or `None` for a token other than `guest` that is refused
/// because it has expired; no token is ever given a privilege that its
/// signed claims do not carry.
pub fn get_jwt_perms(jwt: &str, secret: &[u8]) -> (r: Option<i32>)
    ensures
        jwt@ == "guest"@ ==> r == Some(BASIC_PRIVILEGES),
        r == token_privileges(jwt@, secret@) || (r is None && jwt@ != "guest"@),
{
    if same_text(jwt, "guest") {
        return Some(BASIC_PRIVILEGES);
    }
    match hs256_decode(jwt, secret) {
        Ok(claims) => claimed_privileges(&claims),
        Err(_) => None,
    }
}

/// The privilege that a new account starts with: the administrator's for
/// the name `root`, the basic one for every other name.
pub open spec fn starting_privileges(username: Seq<char>) -> i32 {
    if username == "root"@ {
        ADMIN_PRIVILEGES
    } else {
        BASIC_PRIVILEGES
    }
}

/// The privilege that a new account starts with.
pub fn registration_privileges(username: &str) -> (p: i32)
    ensures
        p == starting_privileges(username@),
{
    if same_text(username, "root") {
        ADMIN_PRIVILEGES
    } else {
        BASIC_PRIVILEGES
    }
}

/// The response to a login that granted `granted`: without a privilege the
/// credentials are refused, with one the body carries a fresh token and the
/// privilege.
pub open spec fn token_response_spec(
    username: Seq<char>,
    granted: Option<i32>,
    secret: Seq<u8>,
    issued_at: u64,
) -> (u16, Seq<char>) {
    match granted {
        None => (STATUS_UNAUTHORIZED, "Invalid username or password"@),
        Some(p) => match signed_token(username, p, expiry(issued_at), secret) {
            None => (STATUS_INTERNAL_SERVER_ERROR, "Failed to issue token"@),
            Some(token) => match response_json(token, p) {
                None => (STATUS_INTERNAL_SERVER_ERROR, "Failed to issue token"@),
                Some(json) => (STATUS_OK, json),
            },
        },
    }
}

/// Builds the response to a login that granted `granted`, with a token
/// issued at `issued_at`.
pub fn token_response(username: &str, granted: Option<i32>, secret: &[u8], issued_at: u64) -> (resp:
    HandlerResponse)
    ensures
        resp@ == token_response_spec(username@, granted, secret@, issued_at),
{
    let privileges = match granted {
        Some(p) => p,
        None => {
            return HandlerResponse {
                status: STATUS_UNAUTHORIZED,
                body: "Invalid username or password".to_owned(),
            };
        },
    };
    let token = match issue_token(username, privileges, secret, issued_at) {
        Ok(token) => token,
        Err(_) => {
            return HandlerResponse {
                status: STATUS_INTERNAL_SERVER_ERROR,
                body: "Failed to issue token".to_owned(),
            };
        },
    };
    match login_response_json(token.as_str(), privileges) {
        Ok(json) => HandlerResponse { status: STATUS_OK, body: json },
        Err(_) => HandlerResponse {
            status: STATUS_INTERNAL_SERVER_ERROR,
            body: "Failed to issue token".to_owned(),
        },
    }
}

/// The response to the answer that the database gave to a login. A login
/// that the database could not handle, because the worker has shut down or
/// the store failed, is answered as a server error. A login that it
/// rejected is refused, and one that it granted is answered with a token.
pub open spec fn login_response_spec(
    username: Seq<char>,
    answer: Result<LoginOutcome, CallError<StorageError>>,
    secret: Seq<u8>,
    issued_at: u64,
) -> (u16, Seq<char>) {
    match answer {
        Ok(outcome) => token_response_spec(username, outcome.granted(), secret, issued_at),
        Err(_) => (STATUS_INTERNAL_SERVER_ERROR, "Database is not available"@),
    }
}

/// Builds the response to the answer that the database gave to a login,
/// with a token issued at `issued_at`.
pub fn login_response(
    username: &str,
    answer: Result<LoginOutcome, CallError<StorageError>>,
    secret: &[u8],
    issued_at: u64,
) -> (resp: HandlerResponse)
    ensures
        resp@ == login_response_spec(username@, answer, secret@, issued_at),
{
    match answer {
        Ok(outcome) => token_response(username, outcome.privileges(), secret, issued_at),
        Err(_) => HandlerResponse {
            status: STATUS_INTERNAL_SERVER_ERROR,
            body: "Database is not available".to_owned(),
        },
    }
}

/// What handling a login request comes to when the database handles it at
/// `now` and the token is issued at `issued_at`: the state of the database
/// afterwards, and the response.
pub open spec fn login_handler_spec(
    s: DatabaseState,
    username: Seq<char>,
    password: Seq<char>,
    secret: Seq<u8>,
    now: Timestamp,
    issued_at: u64,
) -> (DatabaseState, (u16, Seq<char>)) {
    let handled = call_spec(s, RequestView::Login { username, password }, now);
    (handled.0, login_response_spec(username, login_answer(handled.1), secret, issued_at))
}

/// Handles a login request: the credentials are checked by the database,
/// and the response is built from its answer. Credentials that are not
/// accepted are refused in one and the same way, whether the user is
/// unknown or the password wrong. A database that cannot answer makes a
/// server error, not a refusal.
pub fn login_handler(db: &mut Database, secret: &[u8], payload: &LoginRequest) -> (resp:
    HandlerResponse)
    requires
        old(db).wf(),
    ensures
        final(db).wf(),
        exists|now: Timestamp, issued_at: u64|
            {
                &&& final(db)@ == (#[trigger] login_handler_spec(
                    old(db)@,
                    payload.spec_username(),
                    payload.spec_password(),
                    secret@,
                    now,
                    issued_at,
                )).0
                &&& resp@ == login_handler_spec(
                    old(db)@,
                    payload.spec_username(),
                    payload.spec_password(),
                    secret@,
                    now,
                    issued_at,
                ).1
            },
        idle(old(db)@) ==> {
            let granted = granted_privilege(
                old(db)@.rows,
                payload.spec_username(),
                payload.spec_password(),
            );
            &&& (resp.status == STATUS_UNAUTHORIZED) == (granted is None)
            &&& granted is None ==> resp.body@ == "Invalid username or password"@
            &&& final(db)@.rows == old(db)@.rows
        },
        old(db)@.closed ==> {
            &&& resp@ == (STATUS_INTERNAL_SERVER_ERROR, "Database is not available"@)
            &&& final(db)@ == old(db)@
        },
{
    let answer = db.login(payload.username(), payload.password());
    let issued_at = get_current_timestamp();
    let resp = login_response(payload.username(), answer, secret, issued_at);
    proof {
        let now = choose|now: Timestamp|
            {
                &&& final(db)@ == (#[trigger] call_spec(
                    old(db)@,
                    RequestView::Login {
                        username: payload.spec_username(),
                        password: payload.spec_password(),
                    },
                    now,
                )).0
                &&& answer == login_answer(
                    call_spec(
                        old(db)@,
                        RequestView::Login {
                            username: payload.spec_username(),
                            password: payload.spec_password(),
                        },
                        now,
                    ).1,
                )
            };
        let expected = login_handler_spec(
            old(db)@,
            payload.spec_username(),
            payload.spec_password(),
            secret@,
            now,
            issued_at,
        );
        assert(final(db)@ == expected.0 && resp@ == expected.1);
    }
    resp
}

/// What handling a registration comes to, given what the hasher made of the
/// password, when the database registers the user at `registered_at` and
/// logs them in at `login_at`, and the token is issued at `issued_at`. A
/// registration that fails is answered as a server error; one that succeeds
/// is followed by a login with the same credentials.
pub open spec fn register_handler_spec(
    s: DatabaseState,
    username: Seq<char>,
    password: Seq<char>,
    hashed: Option<Seq<char>>,
    secret: Seq<u8>,
    registered_at: Timestamp,
    login_at: Timestamp,
    issued_at: u64,
) -> (DatabaseState, (u16, Seq<char>)) {
    let added = add_user_spec(s, username, hashed, starting_privileges(username), registered_at);
    match added.1 {
        Err(_) => (added.0, (STATUS_INTERNAL_SERVER_ERROR, "Failed to register user"@)),
        Ok(()) => login_handler_spec(added.0, username, password, secret, login_at, issued_at),
    }
}

/// Handles a registration: the user is registered, as administrator under
/// the name `root` and with the basic privilege under any other name, and
/// is then logged in. The outcome is the one that `register_handler_spec`
/// gives for the hash of the password under the salt that was drawn; only
/// where the hasher gives no hash for that salt, the name is taken, the
/// store is full or the worker has shut down is the registration answered
/// as a server error.
pub fn register_handler(db: &mut Database, secret: &[u8], payload: &LoginRequest) -> (resp:
    HandlerResponse)
    requires
        old(db).wf(),
    ensures
        final(db).wf(),
        exists|salt: Seq<char>, registered_at: Timestamp, login_at: Timestamp, issued_at: u64|
            {
                &&& final(db)@ == (#[trigger] register_handler_spec(
                    old(db)@,
                    payload.spec_username(),
                    payload.spec_password(),
                    argon2_phc(payload.spec_password(), salt),
                    secret@,
                    registered_at,
                    login_at,
                    issued_at,
                )).0
                &&& resp@ == register_handler_spec(
                    old(db)@,
                    payload.spec_username(),
                    payload.spec_password(),
                    argon2_phc(payload.spec_password(), salt),
                    secret@,
                    registered_at,
                    login_at,
                    issued_at,
                ).1
                &&& argon2_phc(payload.spec_password(), salt) matches Some(hash)
                    ==> password_verifies(payload.spec_password(), hash)
            },
        idle(old(db)@) ==> {
            let username = payload.spec_username();
            &&& resp.status != STATUS_UNAUTHORIZED
            &&& has_username(old(db)@.rows, username) ==> {
                &&& resp@ == (STATUS_INTERNAL_SERVER_ERROR, "Failed to register user"@)
                &&& final(db)@ == old(db)@
            }
            &&& resp.status == STATUS_OK ==> {
                &&& !has_username(old(db)@.rows, username)
                &&& final(db)@.rows.len() == old(db)@.rows.len() + 1
                &&& final(db)@.rows.last().username == username
                &&& final(db)@.rows.last().privileges == starting_privileges(username)
            }
        },
        old(db)@.closed ==> {
            &&& resp@ == (STATUS_INTERNAL_SERVER_ERROR, "Failed to register user"@)
            &&& final(db)@ == old(db)@
        },
{
    let privileges = registration_privileges(payload.username());
    let added = db.add_user(payload.username(), payload.password(), privileges);
    let ghost queued = choose|salt: Seq<char>, now: Timestamp|
        {
            &&& db@ == (#[trigger] add_user_spec(
                old(db)@,
                payload.spec_username(),
                argon2_phc(payload.spec_password(), salt),
                privileges,
                now,
            )).0
            &&& added == add_user_spec(
                old(db)@,
                payload.spec_username(),
                argon2_phc(payload.spec_password(), salt),
                privileges,
                now,
            ).1
            &&& argon2_phc(payload.spec_password(), salt) matches Some(hash) ==> password_verifies(
                payload.spec_password(),
                hash,
            )
        };
    let ghost added_state = db@;
    match added {
        Err(_) => {
            let resp = HandlerResponse {
                status: STATUS_INTERNAL_SERVER_ERROR,
                body: "Failed to register user".to_owned(),
            };
            proof {
                let at = Timestamp { secs: 0, nanos: 0 };
                let expected = register_handler_spec(
                    old(db)@,
                    payload.spec_username(),
                    payload.spec_password(),
                    argon2_phc(payload.spec_password(), queued.0),
                    secret@,
                    queued.1,
                    at,
                    0,
                );
                assert(db@ == expected.0 && resp@ == expected.1);
            }
            resp
        },
        Ok(()) => {
            proof {
                if idle(old(db)@) {
                    lemma_lookup_at(db@.rows, db@.rows.len() - 1);
                }
            }
            let resp = login_handler(db, secret, payload);
            proof {
                let logged = choose|now: Timestamp, issued_at: u64|
                    {
                        &&& db@ == (#[trigger] login_handler_spec(
                            added_state,
                            payload.spec_username(),
                            payload.spec_password(),
                            secret@,
                            now,
                            issued_at,
                        )).0
                        &&& resp@ == login_handler_spec(
                            added_state,
                            payload.spec_username(),
                            payload.spec_password(),
                            secret@,
                            now,
                            issued_at,
                        ).1
                    };
                let expected = register_handler_spec(
                    old(db)@,
                    payload.spec_username(),
                    payload.spec_password(),
                    argon2_phc(payload.spec_password(), queued.0),
                    secret@,
                    queued.1,
                    logged.0,
                    logged.1,
                );
                assert(db@ == expected.0 && resp@ == expected.1);
            }
            resp
        },
    }
}

/// The response once the storage has been asked to write what a handler
/// changed. Where the write went through, the response stands and so does
/// the change. Where it failed, `persisted` is what the storage still
/// holds: the change is taken back, so that nothing is applied in part,
/// and the caller is told of a server error.
pub fn after_write(db: &mut Database, resp: HandlerResponse, persisted: Option<CredentialStore>) -> (r:
    HandlerResponse)
    requires
        old(db).wf(),
        persisted matches Some(store) ==> store.wf(),
    ensures
        final(db).wf(),
        match persisted {
            None => r == resp && final(db)@ == old(db)@,
            Some(store) => {
                &&& r@ == (STATUS_INTERNAL_SERVER_ERROR, "Failed to write to storage"@)
                &&& final(db)@ == (DatabaseState { rows: store@, ..old(db)@ })
            },
        },
{
    match persisted {
        None => resp,
        Some(store) => {
            db.roll_back(store);
            HandlerResponse {
                status: STATUS_INTERNAL_SERVER_ERROR,
                body: "Failed to write to storage".to_owned(),
            }
        },
    }
}

/// A login through the handler that follows a privilege change within 30
/// days is answered with a token for the new privilege, however high it
/// is, and leaves the database as the change left it: the hook is not
/// invoked.
pub proof fn lemma_handler_after_set_privileges(
    s: DatabaseState,
    index: int,
    privileges: i32,
    changed_at: Timestamp,
    password: Seq<char>,
    secret: Seq<u8>,
    now: Timestamp,
    issued_at: u64,
)
    requires
        state_wf(s),
        idle(s),
        0 <= index < s.rows.len(),
        password_verifies(password, s.rows[index].password_hash),
        now.as_nanos() - changed_at.secs * NANOS_PER_SEC <= STALE_AFTER_SECS * NANOS_PER_SEC,
    ensures
        ({
            let changed = process_spec(
                s,
                RequestView::SetUserPrivileges { user_id: s.rows[index].id, privileges },
                changed_at,
            ).0;
            login_handler_spec(changed, s.rows[index].username, password, secret, now, issued_at)
                == (
                changed,
                token_response_spec(s.rows[index].username, Some(privileges), secret, issued_at),
            )
        }),
{
    lemma_login_after_set_privileges(s, index, privileges, changed_at, password, now);
}

/// A login through the handler, with the right password, after the anchor
/// of the account has been moved back by `delta_secs` seconds from the
/// second in which the login falls. The response carries a token for the
/// account's privilege either way. If the privilege is elevated and the
/// anchor lies more than 30 days back, the hook is invoked exactly once,
/// with the account's privilege, id and external identity, and nothing
/// else changes; otherwise nothing changes at all.
pub proof fn lemma_handler_after_backdating(
    s: DatabaseState,
    index: int,
    delta_secs: i64,
    password: Seq<char>,
    secret: Seq<u8>,
    now: Timestamp,
    issued_at: u64,
)
    requires
        state_wf(s),
        idle(s),
        0 <= index < s.rows.len(),
        password_verifies(password, s.rows[index].password_hash),
    ensures
        ({
            let row = s.rows[index];
            let anchor = backdated(now.secs, delta_secs);
            let aged = DatabaseState {
                rows: with_anchor(s.rows, row.username, Some(anchor)),
                ..s
            };
            let elevated = row.privileges != 0 && row.privileges != 1;
            let overdue = elapsed_nanos(anchor as int, now) > STALE_AFTER_SECS * NANOS_PER_SEC;
            login_handler_spec(aged, row.username, password, secret, now, issued_at) == (
                if elevated && overdue {
                    DatabaseState { observed: hooked(s.observed, verification_args(row)), ..aged }
                } else {
                    aged
                },
                token_response_spec(row.username, Some(row.privileges), secret, issued_at),
            )
        }),
{
    lemma_login_after_backdating(s, index, delta_secs, password, now);
}

/// The first registration of a free name on a database that is up, idle
/// and has room, where the hasher gives a hash for the password: the user
/// is stored with the starting privilege of the name and with that hash,
/// nothing else changes, and the response is the one to a login granted at
/// that privilege, which is a token unless signing or writing it fails.
pub proof fn lemma_first_registration(
    s: DatabaseState,
    username: Seq<char>,
    password: Seq<char>,
    password_hash: Seq<char>,
    secret: Seq<u8>,
    registered_at: Timestamp,
    login_at: Timestamp,
    issued_at: u64,
)
    requires
        state_wf(s),
        idle(s),
        !has_username(s.rows, username),
        next_id(s.rows) <= i32::MAX,
        password_verifies(password, password_hash),
    ensures
        register_handler_spec(
            s,
            username,
            password,
            Some(password_hash),
            secret,
            registered_at,
            login_at,
            issued_at,
        ) == (
            DatabaseState {
                rows: s.rows.push(
                    new_row(
                        s.rows,
                        username,
                        password_hash,
                        starting_privileges(username),
                        registered_at.secs,
                    ),
                ),
                ..s
            },
            token_response_spec(username, Some(starting_privileges(username)), secret, issued_at),
        ),
{
    let privileges = starting_privileges(username);
    let request = RequestView::AddUser { username, password_hash, privileges };
    let registered = process_spec(s, request, registered_at).0;
    lemma_login_after_register(
        s,
        username,
        password,
        password_hash,
        privileges,
        registered_at,
        login_at,
    );
    lemma_lookup_at(registered.rows, s.rows.len() as int);
}

} // verus!
