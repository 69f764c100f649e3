//! The credential store: the table of user records, one row per user.

use vstd::prelude::*;
use crate::clock::Timestamp;
use crate::db::testing::VerificationArgs;
use crate::password::{argon2_phc, hash_password, password_verifies, verify};
use crate::policy::{stale, staleness, staleness_of, Staleness};

verus! {

/// A user as the store holds it.
#[derive(Debug)]
pub struct UserRecord {
    /// Unique, assigned by the store on creation.
    pub id: i32,
    /// Unique identity key.
    pub username: String,
    /// Salted one-way hash of the password.
    pub password_hash: String,
    /// 0 is the administrator, 1 the baseline tier, above 1 the elevated tiers.
    pub privileges: i32,
    /// When `privileges` was last set, in seconds since the Unix epoch;
    /// `None` where the stored value could not be read.
    pub privileges_last_updated: Option<i64>,
    /// External identity, present once an external verification has run.
    pub patreon_id: Option<String>,
    pub patreon_refresh_token: Option<String>,
}

/// The mathematical content of a [`UserRecord`].
pub ghost struct UserRow {
    pub id: i32,
    pub username: Seq<char>,
    pub password_hash: Seq<char>,
    pub privileges: i32,
    pub privileges_last_updated: Option<i64>,
    pub patreon_id: Option<Seq<char>>,
    pub patreon_refresh_token: Option<Seq<char>>,
}

/// The characters of an optional string.
pub open spec fn text_of(s: Option<String>) -> Option<Seq<char>> {
    match s {
        Some(t) => Some(t@),
        None => None,
    }
}

impl View for UserRecord {
    type V = UserRow;

    open spec fn view(&self) -> UserRow {
        UserRow {
            id: self.id,
            username: self.username@,
            password_hash: self.password_hash@,
            privileges: self.privileges,
            privileges_last_updated: self.privileges_last_updated,
            patreon_id: text_of(self.patreon_id),
            patreon_refresh_token: text_of(self.patreon_refresh_token),
        }
    }
}

/// Copies an optional string.
pub fn clone_text(s: &Option<String>) -> (r: Option<String>)
    ensures
        r == *s,
{
    match s {
        Some(t) => Some(t.clone()),
        None => None,
    }
}

impl Clone for UserRecord {
    fn clone(&self) -> (r: Self)
        ensures
            r == *self,
    {
        UserRecord {
            id: self.id,
            username: self.username.clone(),
            password_hash: self.password_hash.clone(),
            privileges: self.privileges,
            privileges_last_updated: self.privileges_last_updated,
            patreon_id: clone_text(&self.patreon_id),
            patreon_refresh_token: clone_text(&self.patreon_refresh_token),
        }
    }
}

/// Why a registration failed.
#[derive(Clone, Copy, Debug, PartialEq, Eq, Structural)]
pub enum CreateError {
    /// The username is taken. The existing record is left as it was.
    DuplicateUsername,
    /// The store could not take the record.
    StorageError,
}

/// Why a privilege change failed.
#[derive(Clone, Copy, Debug, PartialEq, Eq, Structural)]
pub enum UpdateError {
    /// No record has the given id.
    NotFound,
    /// The store could not apply the change.
    StorageError,
}

/// A fault below the store's own rules.
#[derive(Clone, Copy, Debug, PartialEq, Eq, Structural)]
pub struct StorageError;

/// What the store decides about one login attempt.
#[derive(Debug)]
pub enum LoginResult {
    /// `None`: unknown username or wrong password. `Some(p)`: the password
    /// matched and privilege `p` stands confirmed.
    Privileges(Option<i32>),
    /// The password matched, but the elevated privilege has gone stale and
    /// must be confirmed again with the external identity given here.
    NeedsVerification {
        privileges: i32,
        user_id: i32,
        patreon_id: Option<String>,
        patreon_refresh_token: Option<String>,
    },
}

/// The mathematical content of a [`LoginResult`].
pub ghost enum LoginVerdict {
    /// Unknown username or wrong password; the two are not told apart.
    Rejected,
    /// The password matched and the privilege stands.
    Granted { privileges: i32 },
    /// The password matched and the privilege must be confirmed again.
    NeedsVerification { args: VerificationArgs },
}

impl View for LoginResult {
    type V = LoginVerdict;

    open spec fn view(&self) -> LoginVerdict {
        match *self {
            LoginResult::Privileges(None) => LoginVerdict::Rejected,
            LoginResult::Privileges(Some(p)) => LoginVerdict::Granted { privileges: p },
            LoginResult::NeedsVerification {
                privileges,
                user_id,
                patreon_id,
                patreon_refresh_token,
            } => LoginVerdict::NeedsVerification {
                args: VerificationArgs {
                    privileges,
                    user_id,
                    patreon_id: text_of(patreon_id),
                    patreon_refresh_token: text_of(patreon_refresh_token),
                },
            },
        }
    }
}

/// The hook arguments that a row gives rise to.
pub open spec fn verification_args(row: UserRow) -> VerificationArgs {
    VerificationArgs {
        privileges: row.privileges,
        user_id: row.id,
        patreon_id: row.patreon_id,
        patreon_refresh_token: row.patreon_refresh_token,
    }
}

/// What a login attempt at `now` comes to. An unknown username and a wrong
/// password give the same verdict. A matching password is granted the row's
/// current privilege, pending re-verification where that privilege is stale.
pub open spec fn verdict(
    rows: Seq<UserRow>,
    username: Seq<char>,
    password: Seq<char>,
    now: Timestamp,
) -> LoginVerdict {
    match lookup(rows, username) {
        None => LoginVerdict::Rejected,
        Some(row) => if !password_verifies(password, row.password_hash) {
            LoginVerdict::Rejected
        } else if stale(row.privileges, row.privileges_last_updated, now) {
            LoginVerdict::NeedsVerification { args: verification_args(row) }
        } else {
            LoginVerdict::Granted { privileges: row.privileges }
        },
    }
}

/// The privilege that a login with these credentials is granted, whenever
/// it happens: the privilege of the account, if the password verifies
/// against its hash.
pub open spec fn granted_privilege(rows: Seq<UserRow>, username: Seq<char>, password: Seq<char>) -> Option<
    i32,
> {
    match lookup(rows, username) {
        None => None,
        Some(row) => if password_verifies(password, row.password_hash) {
            Some(row.privileges)
        } else {
            None
        },
    }
}

/// How the staleness policy classifies the account behind a login attempt;
/// `None` where the attempt is rejected and the policy is never asked.
pub open spec fn login_staleness(
    rows: Seq<UserRow>,
    username: Seq<char>,
    password: Seq<char>,
    now: Timestamp,
) -> Option<Staleness> {
    match lookup(rows, username) {
        None => None,
        Some(row) => if password_verifies(password, row.password_hash) {
            Some(staleness_of(row.privileges, row.privileges_last_updated, now))
        } else {
            None
        },
    }
}

/// A result that carries nothing on success has only one way to succeed.
pub proof fn lemma_unit_ok<E>(r: Result<(), E>)
    ensures
        r is Ok ==> r == Ok::<(), E>(()),
{
    if r is Ok {
        assert(r->Ok_0 == ());
    }
}

/// The store's invariant: ids start at 1 and grow with each row, and no
/// username occurs twice.
pub open spec fn rows_wf(rows: Seq<UserRow>) -> bool {
    &&& forall|i: int| 0 <= i < rows.len() ==> 1 <= #[trigger] rows[i].id
    &&& forall|i: int, j: int| 0 <= i < j < rows.len() ==> rows[i].id < rows[j].id
    &&& forall|i: int, j: int| 0 <= i < j < rows.len() ==> rows[i].username != rows[j].username
}

/// Whether some row carries `username`.
pub open spec fn has_username(rows: Seq<UserRow>, username: Seq<char>) -> bool {
    exists|i: int| 0 <= i < rows.len() && #[trigger] rows[i].username == username
}

/// Whether some row carries `id`.
pub open spec fn has_id(rows: Seq<UserRow>, id: i32) -> bool {
    exists|i: int| 0 <= i < rows.len() && #[trigger] rows[i].id == id
}

/// The row of `username`, if there is one.
pub open spec fn lookup(rows: Seq<UserRow>, username: Seq<char>) -> Option<UserRow> {
    if has_username(rows, username) {
        Some(rows[choose|i: int| 0 <= i < rows.len() && #[trigger] rows[i].username == username])
    } else {
        None
    }
}

/// The id that the next new row receives: one more than the newest row's.
pub open spec fn next_id(rows: Seq<UserRow>) -> int {
    if rows.len() == 0 {
        1
    } else {
        rows.last().id + 1
    }
}

/// The row that a registration adds.
pub open spec fn new_row(
    rows: Seq<UserRow>,
    username: Seq<char>,
    password_hash: Seq<char>,
    privileges: i32,
    now: i64,
) -> UserRow {
    UserRow {
        id: next_id(rows) as i32,
        username,
        password_hash,
        privileges,
        privileges_last_updated: Some(now),
        patreon_id: None,
        patreon_refresh_token: None,
    }
}

/// What a registration comes to, given what the hasher made of the
/// password: the table afterwards and the answer. A taken username fails as
/// a duplicate whatever the hasher did. Otherwise the registration fails as
/// a storage error where the hasher gave no hash or the store is full, and
/// else adds the row with the hash.
pub open spec fn created(
    rows: Seq<UserRow>,
    username: Seq<char>,
    hashed: Option<Seq<char>>,
    privileges: i32,
    now: i64,
) -> (Seq<UserRow>, Result<(), CreateError>) {
    if has_username(rows, username) {
        (rows, Err(CreateError::DuplicateUsername))
    } else {
        match hashed {
            None => (rows, Err(CreateError::StorageError)),
            Some(hash) => if next_id(rows) > i32::MAX {
                (rows, Err(CreateError::StorageError))
            } else {
                (rows.push(new_row(rows, username, hash, privileges, now)), Ok(()))
            },
        }
    }
}

/// The table after the row with id `user_id` has had its privilege set at
/// `now`. All other rows stay as they are.
pub open spec fn with_privileges(rows: Seq<UserRow>, user_id: i32, privileges: i32, now: i64) -> Seq<
    UserRow,
> {
    Seq::new(
        rows.len(),
        |i: int|
            if rows[i].id == user_id {
                UserRow { privileges, privileges_last_updated: Some(now), ..rows[i] }
            } else {
                rows[i]
            },
    )
}

/// The table after the staleness anchor of `username` has been moved.
pub open spec fn with_anchor(rows: Seq<UserRow>, username: Seq<char>, anchor: Option<i64>) -> Seq<
    UserRow,
> {
    Seq::new(
        rows.len(),
        |i: int|
            if rows[i].username == username {
                UserRow { privileges_last_updated: anchor, ..rows[i] }
            } else {
                rows[i]
            },
    )
}

/// The table after `username` has been given an external identity.
pub open spec fn with_external_identity(
    rows: Seq<UserRow>,
    username: Seq<char>,
    patreon_id: Option<Seq<char>>,
    patreon_refresh_token: Option<Seq<char>>,
) -> Seq<UserRow> {
    Seq::new(
        rows.len(),
        |i: int|
            if rows[i].username == username {
                UserRow { patreon_id, patreon_refresh_token, ..rows[i] }
            } else {
                rows[i]
            },
    )
}

/// In a well-formed table a username picks out its row.
pub proof fn lemma_lookup_at(rows: Seq<UserRow>, index: int)
    requires
        rows_wf(rows),
        0 <= index < rows.len(),
    ensures
        has_username(rows, rows[index].username),
        lookup(rows, rows[index].username) == Some(rows[index]),
{
    let name = rows[index].username;
    let chosen = choose|i: int| 0 <= i < rows.len() && #[trigger] rows[i].username == name;
    assert(chosen == index);
}

/// The rows that a sequence of records stands for.
pub open spec fn rows_of(records: Seq<UserRecord>) -> Seq<UserRow> {
    records.map_values(|u: UserRecord| u@)
}

/// The store itself. Rows stay in the order in which they were created.
pub struct CredentialStore {
    users: Vec<UserRecord>,
}

impl View for CredentialStore {
    type V = Seq<UserRow>;

    closed spec fn view(&self) -> Seq<UserRow> {
        rows_of(self.users@)
    }
}

impl CredentialStore {
    /// The invariant that every operation expects and keeps.
    pub open spec fn wf(&self) -> bool {
        rows_wf(self@)
    }

    /// An empty store.
    pub fn new() -> (s: CredentialStore)
        ensures
            s@ == Seq::<UserRow>::empty(),
            s.wf(),
    {
        CredentialStore { users: Vec::new() }
    }

    /// The number of records.
    pub fn len(&self) -> (n: usize)
        ensures
            n == self@.len(),
    {
        self.users.len()
    }

    /// The position of the record named `username`.
    fn position_of_username(&self, username: &String) -> (r: Option<usize>)
        ensures
            match r {
                Some(i) => i < self@.len() && self@[i as int].username == username@,
                None => !has_username(self@, username@),
            },
    {
        let mut i: usize = 0;
        while i < self.users.len()
            invariant
                i <= self.users.len(),
                self@.len() == self.users.len(),
                forall|j: int| 0 <= j < i ==> (#[trigger] self@[j]).username != username@,
            decreases self.users.len() - i,
        {
            if self.users[i].username == *username {
                return Some(i);
            }
            i += 1;
        }
        None
    }

    /// The position of the record with id `user_id`.
    fn position_of_id(&self, user_id: i32) -> (r: Option<usize>)
        ensures
            match r {
                Some(i) => i < self@.len() && self@[i as int].id == user_id,
                None => !has_id(self@, user_id),
            },
    {
        let mut i: usize = 0;
        while i < self.users.len()
            invariant
                i <= self.users.len(),
                self@.len() == self.users.len(),
                forall|j: int| 0 <= j < i ==> (#[trigger] self@[j]).id != user_id,
            decreases self.users.len() - i,
        {
            if self.users[i].id == user_id {
                return Some(i);
            }
            i += 1;
        }
        None
    }

    /// Adds a record for `username` with an already computed hash, stamped
    /// `now`. The first registration of a username wins: a second one fails
    /// and changes nothing. The store is full once its newest id is the
    /// largest an id can be.
    pub fn insert(
        &mut self,
        username: &str,
        password_hash: String,
        privileges: i32,
        now: i64,
    ) -> (r: Result<(), CreateError>)
        requires
            old(self).wf(),
        ensures
            final(self).wf(),
            match r {
                Ok(()) => {
                    &&& !has_username(old(self)@, username@)
                    &&& next_id(old(self)@) <= i32::MAX
                    &&& final(self)@ == old(self)@.push(
                        new_row(old(self)@, username@, password_hash@, privileges, now),
                    )
                },
                Err(CreateError::DuplicateUsername) => {
                    &&& has_username(old(self)@, username@)
                    &&& final(self)@ == old(self)@
                },
                Err(CreateError::StorageError) => {
                    &&& !has_username(old(self)@, username@)
                    &&& next_id(old(self)@) > i32::MAX
                    &&& final(self)@ == old(self)@
                },
            },
    {
        let name = username.to_owned();
        if self.position_of_username(&name).is_some() {
            return Err(CreateError::DuplicateUsername);
        }
        let count = self.users.len();
        let id: i32 = if count == 0 {
            1
        } else {
            let newest = self.users[count - 1].id;
            if newest == i32::MAX {
                return Err(CreateError::StorageError);
            }
            newest + 1
        };
        let record = UserRecord {
            id,
            username: name,
            password_hash,
            privileges,
            privileges_last_updated: Some(now),
            patreon_id: None,
            patreon_refresh_token: None,
        };
        proof {
            let after = self@.push(record@);
            assert forall|i: int, j: int| 0 <= i < j < after.len() implies after[i].id
                < after[j].id && after[i].username != after[j].username by {}
        }
        self.users.push(record);
        assert(self@ =~= old(self)@.push(record@));
        Ok(())
    }

    /// Registers `username`: hashes the password under a fresh salt and adds
    /// the record, stamped `now`. A taken username fails before any hashing
    /// is done. Otherwise the outcome is the one that `created` gives for
    /// the hash of the password under the salt that was drawn, and a hash
    /// that is stored verifies against the password.
    pub fn create(&mut self, username: &str, password: &str, privileges: i32, now: i64) -> (r:
        Result<(), CreateError>)
        requires
            old(self).wf(),
        ensures
            final(self).wf(),
            exists|salt: Seq<char>|
                {
                    &&& final(self)@ == created(
                        old(self)@,
                        username@,
                        #[trigger] argon2_phc(password@, salt),
                        privileges,
                        now,
                    ).0
                    &&& r == created(
                        old(self)@,
                        username@,
                        argon2_phc(password@, salt),
                        privileges,
                        now,
                    ).1
                    &&& r is Ok ==> password_verifies(password@, final(self)@.last().password_hash)
                },
            has_username(old(self)@, username@) <==> r == Err::<(), CreateError>(
                CreateError::DuplicateUsername,
            ),
    {
        let name = username.to_owned();
        if self.position_of_username(&name).is_some() {
            proof {
                let any = Seq::<char>::empty();
                assert(self@ == created(
                    old(self)@,
                    username@,
                    argon2_phc(password@, any),
                    privileges,
                    now,
                ).0);
            }
            return Err(CreateError::DuplicateUsername);
        }
        let hashed = hash_password(password);
        let ghost salt = choose|salt: Seq<char>|
            match hashed {
                Ok(h) => #[trigger] argon2_phc(password@, salt) == Some(h@) && password_verifies(
                    password@,
                    h@,
                ),
                Err(_) => argon2_phc(password@, salt) is None,
            };
        let r = match hashed {
            Ok(hash) => self.insert(username, hash, privileges, now),
            Err(_) => Err(CreateError::StorageError),
        };
        proof {
            lemma_unit_ok(r);
            let expected = created(
                old(self)@,
                username@,
                argon2_phc(password@, salt),
                privileges,
                now,
            );
            assert(self@ == expected.0 && r == expected.1);
        }
        r
    }

    /// Overwrites the privilege of record `user_id` and moves its staleness
    /// anchor to `now`, in one step.
    pub fn set_privileges(&mut self, user_id: i32, new_privileges: i32, now: i64) -> (r: Result<
        (),
        UpdateError,
    >)
        requires
            old(self).wf(),
        ensures
            final(self).wf(),
            match r {
                Ok(()) => {
                    &&& has_id(old(self)@, user_id)
                    &&& final(self)@ == with_privileges(old(self)@, user_id, new_privileges, now)
                },
                Err(UpdateError::NotFound) => {
                    &&& !has_id(old(self)@, user_id)
                    &&& final(self)@ == old(self)@
                },
                Err(UpdateError::StorageError) => false,
            },
    {
        match self.position_of_id(user_id) {
            None => Err(UpdateError::NotFound),
            Some(i) => {
                self.users[i].privileges = new_privileges;
                self.users[i].privileges_last_updated = Some(now);
                proof {
                    let before = old(self)@;
                    let after = with_privileges(before, user_id, new_privileges, now);
                    assert forall|k: int| 0 <= k < before.len() && k != i implies before[k].id
                        != user_id by {}
                    assert(self@ =~= after);
                }
                Ok(())
            },
        }
    }

    /// Fetches the full record of `username`; `None`, and no error, where
    /// there is no such user.
    pub fn find_for_login(&self, username: &str) -> (r: Result<Option<UserRecord>, StorageError>)
        requires
            self.wf(),
        ensures
            r is Ok,
            match r->Ok_0 {
                Some(record) => lookup(self@, username@) == Some(record@),
                None => lookup(self@, username@) is None,
            },
    {
        let name = username.to_owned();
        match self.position_of_username(&name) {
            None => Ok(None),
            Some(i) => {
                proof {
                    lemma_lookup_at(self@, i as int);
                }
                Ok(Some(self.users[i].clone()))
            },
        }
    }

    /// Decides one login attempt at `now` and tells how the staleness
    /// policy classified the account, so that an anchor that could not be
    /// read can be told apart from one that is fresh. Reads the store;
    /// changes nothing.
    pub fn authenticate_classified(&self, username: &str, password: &str, now: Timestamp) -> (r: (
        LoginResult,
        Option<Staleness>,
    ))
        requires
            self.wf(),
        ensures
            r.0@ == verdict(self@, username@, password@, now),
            r.1 == login_staleness(self@, username@, password@, now),
    {
        let found = match self.find_for_login(username) {
            Ok(found) => found,
            Err(_) => None,
        };
        match found {
            None => (LoginResult::Privileges(None), None),
            Some(record) => {
                if !verify(password, record.password_hash.as_str()) {
                    return (LoginResult::Privileges(None), None);
                }
                let class = staleness(record.privileges, record.privileges_last_updated, now);
                let result = match class {
                    Staleness::Stale => LoginResult::NeedsVerification {
                        privileges: record.privileges,
                        user_id: record.id,
                        patreon_id: record.patreon_id,
                        patreon_refresh_token: record.patreon_refresh_token,
                    },
                    _ => LoginResult::Privileges(Some(record.privileges)),
                };
                (result, Some(class))
            },
        }
    }

    /// Decides one login attempt at `now`. Reads the store; changes nothing.
    pub fn authenticate(&self, username: &str, password: &str, now: Timestamp) -> (r: Result<
        LoginResult,
        StorageError,
    >)
        requires
            self.wf(),
        ensures
            r is Ok,
            r->Ok_0@ == verdict(self@, username@, password@, now),
    {
        Ok(self.authenticate_classified(username, password, now).0)
    }

    /// The records, oldest first.
    pub fn records(&self) -> (r: &Vec<UserRecord>)
        ensures
            rows_of(r@) == self@,
    {
        &self.users
    }

    /// Builds a store from records that were kept elsewhere. They are taken
    /// only if they satisfy the store's invariant.
    pub fn restore(records: Vec<UserRecord>) -> (r: Option<CredentialStore>)
        ensures
            match r {
                Some(store) => store.wf() && store@ == rows_of(records@),
                None => !rows_wf(rows_of(records@)),
            },
    {
        let ghost rows = rows_of(records@);
        let store = CredentialStore { users: records };
        let n = store.users.len();
        let mut j: usize = 0;
        while j < n
            invariant
                j <= n,
                n == store.users.len(),
                rows == store@,
                rows == rows_of(records@),
                rows.len() == n,
                forall|k: int| 0 <= k < j ==> 1 <= (#[trigger] rows[k]).id,
                forall|a: int, b: int| 0 <= a < b < j ==> rows[a].id < rows[b].id,
                forall|a: int, b: int| 0 <= a < b < j ==> rows[a].username != rows[b].username,
            decreases n - j,
        {
            if store.users[j].id < 1 {
                return None;
            }
            if j > 0 && store.users[j - 1].id >= store.users[j].id {
                assert(rows[j - 1].id >= rows[j as int].id);
                return None;
            }
            let mut i: usize = 0;
            while i < j
                invariant
                    i <= j < n,
                    n == store.users.len(),
                    rows == store@,
                    rows == rows_of(records@),
                    rows.len() == n,
                    forall|a: int| 0 <= a < i ==> (#[trigger] rows[a]).username != rows[j as int].username,
                decreases j - i,
            {
                if store.users[i].username == store.users[j].username {
                    assert(rows[i as int].username == rows[j as int].username);
                    return None;
                }
                i += 1;
            }
            proof {
                assert forall|a: int, b: int| 0 <= a < b < j + 1 implies rows[a].id
                    < rows[b].id by {}
            }
            j += 1;
        }
        Some(store)
    }

    /// Attaches an external identity to the record of `username`. Returns
    /// whether there was such a record.
    pub fn set_external_identity(
        &mut self,
        username: &str,
        patreon_id: Option<String>,
        patreon_refresh_token: Option<String>,
    ) -> (found: bool)
        requires
            old(self).wf(),
        ensures
            final(self).wf(),
            found == has_username(old(self)@, username@),
            final(self)@ == with_external_identity(
                old(self)@,
                username@,
                text_of(patreon_id),
                text_of(patreon_refresh_token),
            ),
    {
        let name = username.to_owned();
        match self.position_of_username(&name) {
            None => false,
            Some(i) => {
                self.users[i].patreon_id = patreon_id;
                self.users[i].patreon_refresh_token = patreon_refresh_token;
                proof {
                    let before = old(self)@;
                    assert forall|k: int| 0 <= k < before.len() && k != i implies before[k].username
                        != username@ by {}
                    assert(self@ =~= with_external_identity(
                        before,
                        username@,
                        text_of(patreon_id),
                        text_of(patreon_refresh_token),
                    ));
                }
                true
            },
        }
    }

    /// Moves the staleness anchor of `username` to `anchor` and leaves the
    /// privilege as it is. Returns whether there was such a record.
    pub fn set_anchor(&mut self, username: &str, anchor: Option<i64>) -> (found: bool)
        requires
            old(self).wf(),
        ensures
            final(self).wf(),
            found == has_username(old(self)@, username@),
            final(self)@ == with_anchor(old(self)@, username@, anchor),
    {
        let name = username.to_owned();
        match self.position_of_username(&name) {
            None => false,
            Some(i) => {
                self.users[i].privileges_last_updated = anchor;
                proof {
                    let before = old(self)@;
                    assert forall|k: int| 0 <= k < before.len() && k != i implies before[k].username
                        != username@ by {}
                    assert(self@ =~= with_anchor(before, username@, anchor));
                }
                true
            },
        }
    }
}

} // verus!
