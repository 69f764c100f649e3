//! The credential store and the single-writer queue in front of it.
//!
//! Callers never touch the store. They hand a [`DbRequest`] to the
//! [`Database`], which queues it; one worker takes the requests in the order
//! in which they were queued, runs each against the store, and answers each
//! with one [`DbReply`]. A `Close` request ends the worker.

pub mod lemmas;
pub mod store;
pub mod testing;

use vstd::prelude::*;
use crate::clock::Timestamp;
use crate::db::store::{
    granted_privilege, has_id, has_username, lemma_unit_ok, login_staleness, new_row, next_id,
    rows_wf, text_of, verdict, with_anchor, with_external_identity, with_privileges,
    CreateError, CredentialStore, LoginResult, LoginVerdict, StorageError, UpdateError, UserRow,
};
use crate::db::testing::{VerificationArgs, VerificationCall, VerificationProbe};
use crate::password::{argon2_phc, hash_password, password_verifies};
use crate::policy::Staleness;

verus! {

/// How many requests may wait in the queue.
pub const QUEUE_CAPACITY: usize = 32;

/// What a caller learns from a login attempt.
#[derive(Clone, Copy, Debug, PartialEq, Eq, Structural)]
pub enum LoginOutcome {
    /// Unknown username or wrong password. The caller is not told which.
    Rejected,
    /// The password matched; the account holds this privilege.
    Granted(i32),
    /// The password matched and the account holds this privilege, but the
    /// privilege had gone stale and re-verification has been set off.
    GrantedPendingVerification(i32),
}

impl LoginOutcome {
    /// The privilege that the outcome grants, if it grants one.
    pub open spec fn granted(self) -> Option<i32> {
        match self {
            LoginOutcome::Rejected => None,
            LoginOutcome::Granted(p) => Some(p),
            LoginOutcome::GrantedPendingVerification(p) => Some(p),
        }
    }

    /// The privilege that the outcome grants, if it grants one.
    pub fn privileges(self) -> (p: Option<i32>)
        ensures
            p == self.granted(),
    {
        match self {
            LoginOutcome::Rejected => None,
            LoginOutcome::Granted(p) => Some(p),
            LoginOutcome::GrantedPendingVerification(p) => Some(p),
        }
    }
}

/// A request to the worker.
#[derive(Debug)]
pub enum DbRequest {
    /// Register a user whose password has already been hashed.
    AddUser { username: String, password_hash: String, privileges: i32 },
    /// Change the privilege of the user with this id.
    SetUserPrivileges { user_id: i32, privileges: i32 },
    /// Check a username and password.
    Login { username: String, password: String },
    /// Shut the worker down.
    Close,
}

/// The mathematical content of a [`DbRequest`].
pub ghost enum RequestView {
    AddUser { username: Seq<char>, password_hash: Seq<char>, privileges: i32 },
    SetUserPrivileges { user_id: i32, privileges: i32 },
    Login { username: Seq<char>, password: Seq<char> },
    Close,
}

impl View for DbRequest {
    type V = RequestView;

    open spec fn view(&self) -> RequestView {
        match *self {
            DbRequest::AddUser { username, password_hash, privileges } => RequestView::AddUser {
                username: username@,
                password_hash: password_hash@,
                privileges,
            },
            DbRequest::SetUserPrivileges { user_id, privileges } => RequestView::SetUserPrivileges {
                user_id,
                privileges,
            },
            DbRequest::Login { username, password } => RequestView::Login {
                username: username@,
                password: password@,
            },
            DbRequest::Close => RequestView::Close,
        }
    }
}

/// The worker's answer to one request. `Close` is never answered.
#[derive(Clone, Copy, Debug, PartialEq, Eq)]
pub enum DbReply {
    AddUser(Result<(), CreateError>),
    SetUserPrivileges(Result<(), UpdateError>),
    Login(Result<LoginOutcome, StorageError>),
}

/// Why a request could not be queued.
#[derive(Clone, Copy, Debug, PartialEq, Eq, Structural)]
pub enum SendError {
    /// The worker has shut down. Nothing will be queued again.
    Closed,
    /// The queue is at capacity. The sender has to wait until the worker
    /// has made room.
    Full,
}

/// Why a call that waits for its answer came back without one, or with a
/// failure.
#[derive(Debug, PartialEq, Eq)]
pub enum CallError<E> {
    /// The worker had shut down before it reached the request.
    Closed,
    /// The worker ran the request and it failed.
    Failed(E),
}

/// The state of the database as contracts see it.
#[verifier::ext_equal]
pub ghost struct DatabaseState {
    /// The rows of the store, oldest first.
    pub rows: Seq<UserRow>,
    /// The queued requests, oldest first.
    pub pending: Seq<RequestView>,
    /// Whether the worker has shut down.
    pub closed: bool,
    /// What the installed probe has recorded; `None` where none is installed.
    pub observed: Option<Seq<VerificationArgs>>,
    /// How many logins were granted although the anchor of the account
    /// could not be read.
    pub unreadable: u64,
}

/// The invariant of the state: a well-formed table, a bounded queue, and
/// nothing queued once the worker has shut down.
pub open spec fn state_wf(s: DatabaseState) -> bool {
    &&& rows_wf(s.rows)
    &&& s.pending.len() <= QUEUE_CAPACITY
    &&& s.closed ==> s.pending.len() == 0
}

/// The record of the probe after one more invocation of the hook.
pub open spec fn hooked(observed: Option<Seq<VerificationArgs>>, args: VerificationArgs) -> Option<
    Seq<VerificationArgs>,
> {
    match observed {
        Some(log) => Some(log.push(args)),
        None => None,
    }
}

/// What a probe slot has recorded.
pub open spec fn observed_by(probe: Option<VerificationProbe>) -> Option<Seq<VerificationArgs>> {
    match probe {
        Some(p) => Some(p@),
        None => None,
    }
}

/// The count of unreadable anchors after one more has been met. The count
/// stops at the largest number it can hold.
pub open spec fn counted(unreadable: u64) -> u64 {
    if unreadable == u64::MAX {
        unreadable
    } else {
        (unreadable + 1) as u64
    }
}

/// The outcome that a caller is given for a verdict of the store.
pub open spec fn outcome_of(v: LoginVerdict) -> LoginOutcome {
    match v {
        LoginVerdict::Rejected => LoginOutcome::Rejected,
        LoginVerdict::Granted { privileges } => LoginOutcome::Granted(privileges),
        LoginVerdict::NeedsVerification { args } => LoginOutcome::GrantedPendingVerification(
            args.privileges,
        ),
    }
}

/// Whether the worker is up and has nothing waiting, so that a call is
/// handled at once.
pub open spec fn idle(s: DatabaseState) -> bool {
    !s.closed && s.pending.len() == 0
}

/// The worker's handling of one request at `now`: the state it leaves and
/// the reply it sends. After shutdown a request is dropped unanswered. A
/// login changes no record; it may set off the hook, and it is counted if
/// it was granted over an anchor that could not be read.
pub open spec fn process_spec(s: DatabaseState, request: RequestView, now: Timestamp) -> (
    DatabaseState,
    Option<DbReply>,
) {
    if s.closed {
        (s, None)
    } else {
        match request {
            RequestView::Close => (
                DatabaseState { closed: true, pending: Seq::empty(), ..s },
                None,
            ),
            RequestView::AddUser { username, password_hash, privileges } => {
                if has_username(s.rows, username) {
                    (s, Some(DbReply::AddUser(Err(CreateError::DuplicateUsername))))
                } else if next_id(s.rows) > i32::MAX {
                    (s, Some(DbReply::AddUser(Err(CreateError::StorageError))))
                } else {
                    (
                        DatabaseState {
                            rows: s.rows.push(
                                new_row(s.rows, username, password_hash, privileges, now.secs),
                            ),
                            ..s
                        },
                        Some(DbReply::AddUser(Ok(()))),
                    )
                }
            },
            RequestView::SetUserPrivileges { user_id, privileges } => {
                if has_id(s.rows, user_id) {
                    (
                        DatabaseState {
                            rows: with_privileges(s.rows, user_id, privileges, now.secs),
                            ..s
                        },
                        Some(DbReply::SetUserPrivileges(Ok(()))),
                    )
                } else {
                    (s, Some(DbReply::SetUserPrivileges(Err(UpdateError::NotFound))))
                }
            },
            RequestView::Login { username, password } => {
                let v = verdict(s.rows, username, password, now);
                let after = DatabaseState {
                    observed: match v {
                        LoginVerdict::NeedsVerification { args } => hooked(s.observed, args),
                        _ => s.observed,
                    },
                    unreadable: if login_staleness(s.rows, username, password, now) == Some(
                        Staleness::Unreadable,
                    ) {
                        counted(s.unreadable)
                    } else {
                        s.unreadable
                    },
                    ..s
                };
                (after, Some(DbReply::Login(Ok(outcome_of(v)))))
            },
        }
    }
}

/// One turn of the worker: it takes the oldest queued request and handles
/// it. With nothing queued, nothing happens.
pub open spec fn step_spec(s: DatabaseState, now: Timestamp) -> (DatabaseState, Option<DbReply>) {
    if s.pending.len() == 0 {
        (s, None)
    } else {
        process_spec(DatabaseState { pending: s.pending.drop_first(), ..s }, s.pending[0], now)
    }
}

/// The worker's loop: turn after turn until the queue is empty, which is
/// also how a `Close` leaves it. The replies come in the order of the
/// requests.
pub open spec fn run_spec(s: DatabaseState, now: Timestamp) -> (DatabaseState, Seq<DbReply>)
    decreases s.pending.len(),
{
    if s.pending.len() == 0 {
        (s, Seq::empty())
    } else {
        let (next, reply) = step_spec(s, now);
        let (end, rest) = run_spec(next, now);
        (
            end,
            match reply {
                Some(r) => seq![r] + rest,
                None => rest,
            },
        )
    }
}

/// A call that waits for its answer: whatever was queued before it is
/// handled first, then the request itself.
pub open spec fn call_spec(s: DatabaseState, request: RequestView, now: Timestamp) -> (
    DatabaseState,
    Option<DbReply>,
) {
    process_spec(run_spec(s, now).0, request, now)
}

/// What the caller of `add_user` is told for a reply of the worker.
pub open spec fn add_user_answer(reply: Option<DbReply>) -> Result<(), CallError<CreateError>> {
    match reply {
        Some(DbReply::AddUser(Ok(()))) => Ok(()),
        Some(DbReply::AddUser(Err(e))) => Err(CallError::Failed(e)),
        _ => Err(CallError::Closed),
    }
}

/// What registering a user through the queue comes to, given what the
/// hasher made of the password. Where it gave no hash, nothing is queued
/// and the caller is told of a storage error. Where it gave one, the
/// request with that hash is handled at `now` after everything queued
/// before it.
pub open spec fn add_user_spec(
    s: DatabaseState,
    username: Seq<char>,
    hashed: Option<Seq<char>>,
    privileges: i32,
    now: Timestamp,
) -> (DatabaseState, Result<(), CallError<CreateError>>) {
    match hashed {
        None => (s, Err(CallError::Failed(CreateError::StorageError))),
        Some(password_hash) => {
            let handled = call_spec(
                s,
                RequestView::AddUser { username, password_hash, privileges },
                now,
            );
            (handled.0, add_user_answer(handled.1))
        },
    }
}

/// What the caller of `set_user_privileges` is told for a reply of the worker.
pub open spec fn set_privileges_answer(reply: Option<DbReply>) -> Result<
    (),
    CallError<UpdateError>,
> {
    match reply {
        Some(DbReply::SetUserPrivileges(Ok(()))) => Ok(()),
        Some(DbReply::SetUserPrivileges(Err(e))) => Err(CallError::Failed(e)),
        _ => Err(CallError::Closed),
    }
}

/// What the caller of `login` is told for a reply of the worker.
pub open spec fn login_answer(reply: Option<DbReply>) -> Result<
    LoginOutcome,
    CallError<StorageError>,
> {
    match reply {
        Some(DbReply::Login(Ok(outcome))) => Ok(outcome),
        Some(DbReply::Login(Err(e))) => Err(CallError::Failed(e)),
        _ => Err(CallError::Closed),
    }
}

/// The anchor that lies `delta_secs` seconds before `now`. A negative
/// `delta_secs` counts as zero, so that an anchor is never moved forward,
/// and the result stops at the smallest representable second.
pub open spec fn backdated(now: i64, delta_secs: i64) -> i64 {
    let delta = if delta_secs < 0 {
        0
    } else {
        delta_secs as int
    };
    if now - delta < i64::MIN {
        i64::MIN
    } else {
        (now - delta) as i64
    }
}

/// The reply that tells of a storage fault, for a request of the same kind
/// as the one that `reply` answers.
pub open spec fn storage_failure(reply: DbReply) -> DbReply {
    match reply {
        DbReply::AddUser(_) => DbReply::AddUser(Err(CreateError::StorageError)),
        DbReply::SetUserPrivileges(_) => DbReply::SetUserPrivileges(
            Err(UpdateError::StorageError),
        ),
        DbReply::Login(_) => DbReply::Login(Err(StorageError)),
    }
}

/// The re-verification hook. It is given the account's privilege, id and
/// external identity, makes the invocation visible to the probe if one is
/// installed, and hands the privilege back as it got it.
pub fn verify_privilege(
    probe: &mut Option<VerificationProbe>,
    privileges: i32,
    user_id: i32,
    patreon_id: Option<String>,
    patreon_refresh_token: Option<String>,
) -> (confirmed: i32)
    ensures
        confirmed == privileges,
        observed_by(*final(probe)) == hooked(
            observed_by(*old(probe)),
            VerificationArgs {
                privileges,
                user_id,
                patreon_id: text_of(patreon_id),
                patreon_refresh_token: text_of(patreon_refresh_token),
            },
        ),
{
    match probe {
        Some(p) => {
            p.record_call(
                VerificationCall { privileges, user_id, patreon_id, patreon_refresh_token },
            );
        },
        None => {},
    }
    privileges
}

/// The store together with its request queue and its worker's state.
pub struct Database {
    store: CredentialStore,
    queue: Vec<DbRequest>,
    closed: bool,
    probe: Option<VerificationProbe>,
    unreadable: u64,
}

/// The requests that a queue holds.
pub open spec fn requests_of(queue: Seq<DbRequest>) -> Seq<RequestView> {
    queue.map_values(|r: DbRequest| r@)
}

impl View for Database {
    type V = DatabaseState;

    closed spec fn view(&self) -> DatabaseState {
        DatabaseState {
            rows: self.store@,
            pending: requests_of(self.queue@),
            closed: self.closed,
            observed: observed_by(self.probe),
            unreadable: self.unreadable,
        }
    }
}

impl Database {
    /// The invariant that every operation expects and keeps.
    pub open spec fn wf(&self) -> bool {
        state_wf(self@)
    }

    /// A database over an empty store, with an idle worker and no probe.
    pub fn new() -> (db: Database)
        ensures
            db.wf(),
            db@ == (DatabaseState {
                rows: Seq::empty(),
                pending: Seq::empty(),
                closed: false,
                observed: None,
                unreadable: 0,
            }),
    {
        Database {
            store: CredentialStore::new(),
            queue: Vec::new(),
            closed: false,
            probe: None,
            unreadable: 0,
        }
    }

    /// A database over an existing store.
    pub fn open(store: CredentialStore) -> (db: Database)
        requires
            store.wf(),
        ensures
            db.wf(),
            db@ == (DatabaseState {
                rows: store@,
                pending: Seq::empty(),
                closed: false,
                observed: None,
                unreadable: 0,
            }),
    {
        Database { store, queue: Vec::new(), closed: false, probe: None, unreadable: 0 }
    }

    /// Whether the worker has shut down.
    pub fn is_closed(&self) -> (b: bool)
        ensures
            b == self@.closed,
    {
        self.closed
    }

    /// How many requests are waiting.
    pub fn pending_len(&self) -> (n: usize)
        ensures
            n == self@.pending.len(),
    {
        self.queue.len()
    }

    /// The store, for reading.
    pub fn store(&self) -> (s: &CredentialStore)
        ensures
            s@ == self@.rows,
    {
        &self.store
    }

    /// How many logins were granted although the anchor of the account
    /// could not be read. Such a login is never held up, but it is counted
    /// here, apart from the logins whose anchor was fresh.
    pub fn unreadable_anchors(&self) -> (n: u64)
        ensures
            n == self@.unreadable,
    {
        self.unreadable
    }

    /// The installed probe, if any.
    pub fn verification_probe(&self) -> (p: &Option<VerificationProbe>)
        ensures
            observed_by(*p) == self@.observed,
    {
        &self.probe
    }

    /// Queues a request without waiting. After shutdown this fails at once;
    /// with a full queue it fails and the sender has to try again later.
    /// Either way a request that is not queued leaves no trace.
    pub fn try_send(&mut self, request: DbRequest) -> (r: Result<(), SendError>)
        requires
            old(self).wf(),
        ensures
            final(self).wf(),
            match r {
                Ok(()) => {
                    &&& !old(self)@.closed
                    &&& old(self)@.pending.len() < QUEUE_CAPACITY
                    &&& final(self)@ == (DatabaseState {
                        pending: old(self)@.pending.push(request@),
                        ..old(self)@
                    })
                },
                Err(SendError::Closed) => old(self)@.closed && final(self)@ == old(self)@,
                Err(SendError::Full) => {
                    &&& !old(self)@.closed
                    &&& old(self)@.pending.len() == QUEUE_CAPACITY
                    &&& final(self)@ == old(self)@
                },
            },
    {
        if self.closed {
            return Err(SendError::Closed);
        }
        if self.queue.len() >= QUEUE_CAPACITY {
            return Err(SendError::Full);
        }
        self.queue.push(request);
        Ok(())
    }

    /// Handles one request at `now`, as the worker does with each request it
    /// takes from the queue.
    pub fn process(&mut self, request: DbRequest, now: Timestamp) -> (reply: Option<DbReply>)
        requires
            old(self).wf(),
        ensures
            final(self).wf(),
            final(self)@ == process_spec(old(self)@, request@, now).0,
            reply == process_spec(old(self)@, request@, now).1,
    {
        if self.closed {
            return None;
        }
        match request {
            DbRequest::Close => {
                self.closed = true;
                self.queue.clear();
                None
            },
            DbRequest::AddUser { username, password_hash, privileges } => {
                let r = self.store.insert(username.as_str(), password_hash, privileges, now.secs);
                proof {
                    lemma_unit_ok(r);
                }
                Some(DbReply::AddUser(r))
            },
            DbRequest::SetUserPrivileges { user_id, privileges } => {
                let r = self.store.set_privileges(user_id, privileges, now.secs);
                proof {
                    lemma_unit_ok(r);
                }
                Some(DbReply::SetUserPrivileges(r))
            },
            DbRequest::Login { username, password } => {
                let (result, class) = self.store.authenticate_classified(
                    username.as_str(),
                    password.as_str(),
                    now,
                );
                match class {
                    Some(Staleness::Unreadable) => {
                        self.unreadable = self.unreadable.saturating_add(1);
                    },
                    _ => {},
                }
                match result {
                    LoginResult::Privileges(None) => Some(
                        DbReply::Login(Ok(LoginOutcome::Rejected)),
                    ),
                    LoginResult::Privileges(Some(p)) => Some(
                        DbReply::Login(Ok(LoginOutcome::Granted(p))),
                    ),
                    LoginResult::NeedsVerification {
                        privileges,
                        user_id,
                        patreon_id,
                        patreon_refresh_token,
                    } => {
                        let _ = verify_privilege(
                            &mut self.probe,
                            privileges,
                            user_id,
                            patreon_id,
                            patreon_refresh_token,
                        );
                        Some(DbReply::Login(Ok(LoginOutcome::GrantedPendingVerification(privileges))))
                    },
                }
            },
        }
    }

    /// One turn of the worker at `now`: the oldest queued request is taken
    /// and handled. Returns the reply, if the request gets one.
    pub fn step_at(&mut self, now: Timestamp) -> (reply: Option<DbReply>)
        requires
            old(self).wf(),
        ensures
            final(self).wf(),
            final(self)@ == step_spec(old(self)@, now).0,
            reply == step_spec(old(self)@, now).1,
    {
        if self.queue.len() == 0 {
            return None;
        }
        let request = self.queue.remove(0);
        self.process(request, now)
    }

    /// The worker's loop at `now`: requests are handled oldest first until
    /// none is left or a `Close` has been handled. The replies are returned
    /// in the order of their requests.
    pub fn run_at(&mut self, now: Timestamp) -> (replies: Vec<DbReply>)
        requires
            old(self).wf(),
        ensures
            final(self).wf(),
            final(self)@ == run_spec(old(self)@, now).0,
            replies@ == run_spec(old(self)@, now).1,
            final(self)@.pending.len() == 0,
            replies@.len() <= old(self)@.pending.len(),
    {
        let mut replies: Vec<DbReply> = Vec::new();
        let ghost start = self@;
        while self.queue.len() > 0
            invariant
                self.wf(),
                run_spec(start, now).0 == run_spec(self@, now).0,
                run_spec(start, now).1 == replies@ + run_spec(self@, now).1,
                replies@.len() + self@.pending.len() <= start.pending.len(),
            decreases self@.pending.len(),
        {
            if let Some(reply) = self.step_at(now) {
                replies.push(reply);
            }
        }
        replies
    }

    /// Handles `request` at `now` after everything that was queued before
    /// it, and returns its reply. `None` means that the worker had shut down
    /// before it reached the request, or that the request was a `Close`.
    /// The requests queued before it are handled to the end, but nobody
    /// waits for their replies, which are dropped.
    pub fn call_at(&mut self, request: DbRequest, now: Timestamp) -> (reply: Option<DbReply>)
        requires
            old(self).wf(),
        ensures
            final(self).wf(),
            final(self)@ == call_spec(old(self)@, request@, now).0,
            reply == call_spec(old(self)@, request@, now).1,
    {
        let _ = self.run_at(now);
        self.process(request, now)
    }

    /// Registers a user and waits for the answer. The password is hashed
    /// under a fresh salt before the request is queued. The outcome is the
    /// one that `add_user_spec` gives for the hash of the password under
    /// the salt that was drawn and the time that the clock shows: only
    /// where the hasher gives no hash for that salt is the caller told of a
    /// storage error with nothing queued.
    pub fn add_user(&mut self, username: &str, password: &str, privileges: i32) -> (r: Result<
        (),
        CallError<CreateError>,
    >)
        requires
            old(self).wf(),
        ensures
            final(self).wf(),
            exists|salt: Seq<char>, now: Timestamp|
                {
                    &&& final(self)@ == (#[trigger] add_user_spec(
                        old(self)@,
                        username@,
                        argon2_phc(password@, salt),
                        privileges,
                        now,
                    )).0
                    &&& r == add_user_spec(
                        old(self)@,
                        username@,
                        argon2_phc(password@, salt),
                        privileges,
                        now,
                    ).1
                    &&& argon2_phc(password@, salt) matches Some(hash) ==> password_verifies(
                        password@,
                        hash,
                    )
                },
            idle(old(self)@) && r is Ok ==> {
                &&& !has_username(old(self)@.rows, username@)
                &&& final(self)@.rows.len() == old(self)@.rows.len() + 1
                &&& final(self)@.rows.last().username == username@
                &&& final(self)@.rows.last().privileges == privileges
                &&& password_verifies(password@, final(self)@.rows.last().password_hash)
            },
            idle(old(self)@) && has_username(old(self)@.rows, username@) ==> {
                &&& r is Err
                &&& final(self)@ == old(self)@
            },
            old(self)@.closed ==> r is Err && final(self)@ == old(self)@,
    {
        let hashed = hash_password(password);
        let ghost salt = choose|salt: Seq<char>|
            match hashed {
                Ok(h) => #[trigger] argon2_phc(password@, salt) == Some(h@) && password_verifies(
                    password@,
                    h@,
                ),
                Err(_) => argon2_phc(password@, salt) is None,
            };
        let password_hash = match hashed {
            Ok(hash) => hash,
            Err(_) => {
                proof {
                    let at = Timestamp { secs: 0, nanos: 0 };
                    let expected = add_user_spec(
                        old(self)@,
                        username@,
                        argon2_phc(password@, salt),
                        privileges,
                        at,
                    );
                    assert(self@ == expected.0);
                }
                return Err(CallError::Failed(CreateError::StorageError));
            },
        };
        let now = Timestamp::now();
        let request = DbRequest::AddUser {
            username: username.to_owned(),
            password_hash,
            privileges,
        };
        let reply = self.call_at(request, now);
        let r = match reply {
            Some(DbReply::AddUser(Ok(()))) => Ok(()),
            Some(DbReply::AddUser(Err(e))) => Err(CallError::Failed(e)),
            _ => Err(CallError::Closed),
        };
        proof {
            let expected = add_user_spec(
                old(self)@,
                username@,
                argon2_phc(password@, salt),
                privileges,
                now,
            );
            assert(self@ == expected.0 && r == expected.1);
        }
        r
    }

    /// Changes the privilege of user `user_id` and waits for the answer.
    /// The request is handled, at the time the clock shows, after everything
    /// queued before it.
    pub fn set_user_privileges(&mut self, user_id: i32, privileges: i32) -> (r: Result<
        (),
        CallError<UpdateError>,
    >)
        requires
            old(self).wf(),
        ensures
            final(self).wf(),
            exists|now: Timestamp|
                {
                    &&& final(self)@ == (#[trigger] call_spec(
                        old(self)@,
                        RequestView::SetUserPrivileges { user_id, privileges },
                        now,
                    )).0
                    &&& r == set_privileges_answer(
                        call_spec(
                            old(self)@,
                            RequestView::SetUserPrivileges { user_id, privileges },
                            now,
                        ).1,
                    )
                },
            idle(old(self)@) ==> {
                &&& r is Ok <==> has_id(old(self)@.rows, user_id)
                &&& r is Err ==> r == Err::<(), CallError<UpdateError>>(
                    CallError::Failed(UpdateError::NotFound),
                ) && final(self)@ == old(self)@
            },
            old(self)@.closed ==> r == Err::<(), CallError<UpdateError>>(CallError::Closed)
                && final(self)@ == old(self)@,
    {
        let now = Timestamp::now();
        let reply = self.call_at(DbRequest::SetUserPrivileges { user_id, privileges }, now);
        match reply {
            Some(DbReply::SetUserPrivileges(Ok(()))) => Ok(()),
            Some(DbReply::SetUserPrivileges(Err(e))) => Err(CallError::Failed(e)),
            _ => Err(CallError::Closed),
        }
    }

    /// Checks a username and password and waits for the answer. The request
    /// is handled, at the time the clock shows, after everything queued
    /// before it. Where the account's privilege has gone stale, the hook
    /// has run by the time the answer is returned.
    pub fn login(&mut self, username: &str, password: &str) -> (r: Result<
        LoginOutcome,
        CallError<StorageError>,
    >)
        requires
            old(self).wf(),
        ensures
            final(self).wf(),
            exists|now: Timestamp|
                {
                    &&& final(self)@ == (#[trigger] call_spec(
                        old(self)@,
                        RequestView::Login { username: username@, password: password@ },
                        now,
                    )).0
                    &&& r == login_answer(
                        call_spec(
                            old(self)@,
                            RequestView::Login { username: username@, password: password@ },
                            now,
                        ).1,
                    )
                },
            idle(old(self)@) ==> {
                &&& r is Ok
                &&& r->Ok_0.granted() == granted_privilege(
                    old(self)@.rows,
                    username@,
                    password@,
                )
                &&& final(self)@.rows == old(self)@.rows
            },
            old(self)@.closed ==> r == Err::<LoginOutcome, CallError<StorageError>>(
                CallError::Closed,
            ) && final(self)@ == old(self)@,
    {
        let now = Timestamp::now();
        let request = DbRequest::Login {
            username: username.to_owned(),
            password: password.to_owned(),
        };
        let reply = self.call_at(request, now);
        match reply {
            Some(DbReply::Login(Ok(outcome))) => Ok(outcome),
            Some(DbReply::Login(Err(e))) => Err(CallError::Failed(e)),
            _ => Err(CallError::Closed),
        }
    }

    /// Shuts the worker down once it has handled everything queued so far.
    /// Nothing is queued or handled afterwards.
    pub fn close(&mut self)
        requires
            old(self).wf(),
        ensures
            final(self).wf(),
            final(self)@.closed,
            final(self)@.pending.len() == 0,
            exists|now: Timestamp|
                final(self)@ == (#[trigger] call_spec(old(self)@, RequestView::Close, now)).0,
    {
        let now = Timestamp::now();
        let _ = self.call_at(DbRequest::Close, now);
    }

    /// Ends the worker and releases the store. What is still queued is
    /// handled first, at the time the clock shows, so that the store is
    /// released only when the worker has drained its queue; the replies
    /// that nobody has collected are returned with the store.
    pub fn shutdown(self) -> (r: (Vec<DbReply>, CredentialStore))
        requires
            self.wf(),
        ensures
            r.1.wf(),
            exists|now: Timestamp|
                {
                    &&& r.0@ == (#[trigger] run_spec(self@, now)).1
                    &&& r.1@ == run_spec(self@, now).0.rows
                },
            self@.pending.len() == 0 ==> r.0@.len() == 0 && r.1@ == self@.rows,
    {
        let mut db = self;
        let now = Timestamp::now();
        let replies = db.run_at(now);
        (replies, db.store)
    }

    /// Takes back what has been changed since the store was last written
    /// elsewhere: the rows become those of `persisted`, which is what the
    /// storage still holds. The queue, the worker and the probe are left as
    /// they are.
    pub fn roll_back(&mut self, persisted: CredentialStore)
        requires
            old(self).wf(),
            persisted.wf(),
        ensures
            final(self).wf(),
            final(self)@ == (DatabaseState { rows: persisted@, ..old(self)@ }),
    {
        self.store = persisted;
    }

    /// The reply once the storage has been asked to write what a request
    /// changed. Where the write went through, the reply stands and so does
    /// the change. Where it failed, `persisted` is what the storage still
    /// holds: the change is taken back, so that nothing is applied in part,
    /// and the reply tells of a storage error.
    pub fn after_write(&mut self, reply: Option<DbReply>, persisted: Option<CredentialStore>) -> (r:
        Option<DbReply>)
        requires
            old(self).wf(),
            persisted matches Some(store) ==> store.wf(),
        ensures
            final(self).wf(),
            match persisted {
                None => r == reply && final(self)@ == old(self)@,
                Some(store) => {
                    &&& final(self)@ == (DatabaseState { rows: store@, ..old(self)@ })
                    &&& r == match reply {
                        Some(answer) => Some(storage_failure(answer)),
                        None => None,
                    }
                },
            },
    {
        match persisted {
            None => reply,
            Some(store) => {
                self.roll_back(store);
                match reply {
                    Some(DbReply::AddUser(_)) => Some(
                        DbReply::AddUser(Err(CreateError::StorageError)),
                    ),
                    Some(DbReply::SetUserPrivileges(_)) => Some(
                        DbReply::SetUserPrivileges(Err(UpdateError::StorageError)),
                    ),
                    Some(DbReply::Login(_)) => Some(DbReply::Login(Err(StorageError))),
                    None => None,
                }
            },
        }
    }

    /// Installs `probe`; from now on it records every invocation of the
    /// hook. A probe installed earlier is dropped.
    pub fn set_verification_probe(&mut self, probe: VerificationProbe)
        requires
            old(self).wf(),
        ensures
            final(self).wf(),
            final(self)@ == (DatabaseState { observed: Some(probe@), ..old(self)@ }),
    {
        self.probe = Some(probe);
    }

    /// Removes the installed probe and returns it with what it recorded.
    pub fn clear_verification_probe(&mut self) -> (taken: Option<VerificationProbe>)
        requires
            old(self).wf(),
        ensures
            final(self).wf(),
            final(self)@ == (DatabaseState { observed: None, ..old(self)@ }),
            observed_by(taken) == old(self)@.observed,
    {
        self.probe.take()
    }

    /// Moves the staleness anchor of `username` to `delta_secs` seconds
    /// before `now`, past the queue. Returns whether there is such a user.
    pub fn backdate_privileges_at(&mut self, username: &str, delta_secs: i64, now: i64) -> (found:
        bool)
        requires
            old(self).wf(),
        ensures
            final(self).wf(),
            found == has_username(old(self)@.rows, username@),
            final(self)@ == (DatabaseState {
                rows: with_anchor(
                    old(self)@.rows,
                    username@,
                    Some(backdated(now, delta_secs)),
                ),
                ..old(self)@
            }),
    {
        let delta: i64 = if delta_secs < 0 {
            0
        } else {
            delta_secs
        };
        let anchor: i64 = if now < i64::MIN + delta {
            i64::MIN
        } else {
            now - delta
        };
        self.store.set_anchor(username, Some(anchor))
    }

    /// Attaches an external identity to `username`, past the queue. Returns
    /// whether there is such a user.
    pub fn attach_external_identity(
        &mut self,
        username: &str,
        patreon_id: Option<String>,
        patreon_refresh_token: Option<String>,
    ) -> (found: bool)
        requires
            old(self).wf(),
        ensures
            final(self).wf(),
            found == has_username(old(self)@.rows, username@),
            final(self)@ == (DatabaseState {
                rows: with_external_identity(
                    old(self)@.rows,
                    username@,
                    text_of(patreon_id),
                    text_of(patreon_refresh_token),
                ),
                ..old(self)@
            }),
    {
        self.store.set_external_identity(username, patreon_id, patreon_refresh_token)
    }
}

} // verus!
