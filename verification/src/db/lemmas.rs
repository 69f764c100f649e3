//! What holds of the database across several requests.

use vstd::prelude::*;
use crate::clock::{Timestamp, NANOS_PER_SEC};
use crate::db::store::{
    granted_privilege, has_id, has_username, lemma_lookup_at, new_row, next_id, rows_wf,
    verdict, verification_args, with_anchor, CreateError, UpdateError, UserRow,
};
use crate::db::{
    backdated, counted, hooked, outcome_of, process_spec, run_spec, state_wf, step_spec,
    DatabaseState, DbReply, LoginOutcome, RequestView,
};
use crate::password::password_verifies;
use crate::policy::{elapsed_nanos, STALE_AFTER_SECS};

verus! {

/// Adding a row for a free username keeps the table well formed.
pub proof fn lemma_push_keeps_wf(
    rows: Seq<UserRow>,
    username: Seq<char>,
    password_hash: Seq<char>,
    privileges: i32,
    now: i64,
)
    requires
        rows_wf(rows),
        !has_username(rows, username),
        next_id(rows) <= i32::MAX,
    ensures
        rows_wf(rows.push(new_row(rows, username, password_hash, privileges, now))),
{
    let after = rows.push(new_row(rows, username, password_hash, privileges, now));
    assert forall|i: int, j: int| 0 <= i < j < after.len() implies after[i].id < after[j].id
        && after[i].username != after[j].username by {}
}

/// Handling a request keeps the state well formed.
pub proof fn lemma_process_keeps_wf(s: DatabaseState, request: RequestView, now: Timestamp)
    requires
        state_wf(s),
    ensures
        state_wf(process_spec(s, request, now).0),
{
    if !s.closed {
        match request {
            RequestView::AddUser { username, password_hash, privileges } => {
                if !has_username(s.rows, username) && next_id(s.rows) <= i32::MAX {
                    lemma_push_keeps_wf(s.rows, username, password_hash, privileges, now.secs);
                }
            },
            _ => {},
        }
    }
}

/// No request removes a user: a username that is registered stays registered.
pub proof fn lemma_username_persists(
    s: DatabaseState,
    request: RequestView,
    now: Timestamp,
    username: Seq<char>,
)
    requires
        has_username(s.rows, username),
    ensures
        has_username(process_spec(s, request, now).0.rows, username),
{
    let i = choose|i: int| 0 <= i < s.rows.len() && #[trigger] s.rows[i].username == username;
    let after = process_spec(s, request, now).0.rows;
    assert(0 <= i < after.len() && after[i].username == username);
}

/// A username that is registered is still registered when the worker has
/// run, whatever was queued.
pub proof fn lemma_username_survives_run(s: DatabaseState, now: Timestamp, username: Seq<char>)
    requires
        has_username(s.rows, username),
    ensures
        has_username(run_spec(s, now).0.rows, username),
    decreases s.pending.len(),
{
    if s.pending.len() > 0 {
        let rest = DatabaseState { pending: s.pending.drop_first(), ..s };
        lemma_username_persists(rest, s.pending[0], now, username);
        lemma_username_survives_run(step_spec(s, now).0, now, username);
    }
}

/// A login reads the store and never writes to it: the rows, the queue and
/// the state of the worker are the same before and after.
pub proof fn lemma_login_changes_no_record(
    s: DatabaseState,
    username: Seq<char>,
    password: Seq<char>,
    now: Timestamp,
)
    ensures
        ({
            let after = process_spec(s, RequestView::Login { username, password }, now).0;
            &&& after.rows == s.rows
            &&& after.pending == s.pending
            &&& after.closed == s.closed
        }),
{
}

/// Registering a free username succeeds while the store has room, and
/// registering the same username again fails as a duplicate and changes
/// nothing, whatever password and privilege the second attempt brings.
pub proof fn lemma_register_twice(
    s: DatabaseState,
    username: Seq<char>,
    first_hash: Seq<char>,
    first_privileges: i32,
    first_at: Timestamp,
    second_hash: Seq<char>,
    second_privileges: i32,
    second_at: Timestamp,
)
    requires
        state_wf(s),
        !s.closed,
        !has_username(s.rows, username),
        next_id(s.rows) <= i32::MAX,
    ensures
        ({
            let first = process_spec(
                s,
                RequestView::AddUser {
                    username,
                    password_hash: first_hash,
                    privileges: first_privileges,
                },
                first_at,
            );
            let second = process_spec(
                first.0,
                RequestView::AddUser {
                    username,
                    password_hash: second_hash,
                    privileges: second_privileges,
                },
                second_at,
            );
            &&& first.1 == Some(DbReply::AddUser(Ok(())))
            &&& second.1 == Some(DbReply::AddUser(Err(CreateError::DuplicateUsername)))
            &&& second.0 == first.0
        }),
{
    let row = new_row(s.rows, username, first_hash, first_privileges, first_at.secs);
    let after = s.rows.push(row);
    assert(after[s.rows.len() as int].username == username);
}

/// A registration of a username that is already taken fails as a duplicate
/// and changes nothing.
pub proof fn lemma_register_taken(
    s: DatabaseState,
    username: Seq<char>,
    password_hash: Seq<char>,
    privileges: i32,
    now: Timestamp,
)
    requires
        !s.closed,
        has_username(s.rows, username),
    ensures
        process_spec(s, RequestView::AddUser { username, password_hash, privileges }, now) == (
            s,
            Some(DbReply::AddUser(Err(CreateError::DuplicateUsername))),
        ),
{
}

/// A login with a password that verifies against the stored hash is granted
/// the account's current privilege, pending re-verification or not. A login
/// with a password that does not verify is rejected and changes nothing.
pub proof fn lemma_login_by_password(
    s: DatabaseState,
    index: int,
    password: Seq<char>,
    now: Timestamp,
)
    requires
        state_wf(s),
        !s.closed,
        0 <= index < s.rows.len(),
    ensures
        ({
            let row = s.rows[index];
            let handled = process_spec(
                s,
                RequestView::Login { username: row.username, password },
                now,
            );
            &&& password_verifies(password, row.password_hash) ==> {
                &&& handled.1 matches Some(DbReply::Login(Ok(outcome)))
                &&& outcome.granted() == Some(row.privileges)
                &&& handled.0.rows == s.rows
            }
            &&& !password_verifies(password, row.password_hash) ==> handled == (
                s,
                Some(DbReply::Login(Ok(LoginOutcome::Rejected))),
            )
        }),
{
    lemma_lookup_at(s.rows, index);
}

/// Whether a login is granted, and with which privilege, does not depend on
/// when it happens. Staleness only decides whether re-verification is set
/// off; the caller is given the account's current privilege either way.
pub proof fn lemma_granted_whatever_the_time(
    rows: Seq<UserRow>,
    username: Seq<char>,
    password: Seq<char>,
    now: Timestamp,
)
    ensures
        outcome_of(verdict(rows, username, password, now)).granted() == granted_privilege(
            rows,
            username,
            password,
        ),
{
}

/// An anchor that cannot be read never holds up a login: with the right
/// password the login is granted outright, whatever the privilege, and the
/// hook stays silent. The login is counted, so that it can be told apart
/// from one whose anchor was fresh.
pub proof fn lemma_unreadable_anchor_fails_open(
    s: DatabaseState,
    index: int,
    password: Seq<char>,
    now: Timestamp,
)
    requires
        state_wf(s),
        !s.closed,
        0 <= index < s.rows.len(),
        s.rows[index].privileges_last_updated is None,
        password_verifies(password, s.rows[index].password_hash),
    ensures
        ({
            let row = s.rows[index];
            let elevated = row.privileges != 0 && row.privileges != 1;
            process_spec(s, RequestView::Login { username: row.username, password }, now) == (
                DatabaseState {
                    unreadable: if elevated {
                        counted(s.unreadable)
                    } else {
                        s.unreadable
                    },
                    ..s
                },
                Some(DbReply::Login(Ok(LoginOutcome::Granted(row.privileges)))),
            )
        }),
{
    lemma_lookup_at(s.rows, index);
}

/// A login under a username that nobody has registered is rejected, in the
/// same way as a wrong password is.
pub proof fn lemma_login_unknown_user(
    s: DatabaseState,
    username: Seq<char>,
    password: Seq<char>,
    now: Timestamp,
)
    requires
        !s.closed,
        !has_username(s.rows, username),
    ensures
        process_spec(s, RequestView::Login { username, password }, now) == (
            s,
            Some(DbReply::Login(Ok(LoginOutcome::Rejected))),
        ),
{
}

/// After a user has been registered with a hash that verifies a password,
/// a login with that password is granted the registered privilege.
pub proof fn lemma_login_after_register(
    s: DatabaseState,
    username: Seq<char>,
    password: Seq<char>,
    password_hash: Seq<char>,
    privileges: i32,
    registered_at: Timestamp,
    now: Timestamp,
)
    requires
        state_wf(s),
        !s.closed,
        !has_username(s.rows, username),
        next_id(s.rows) <= i32::MAX,
        password_verifies(password, password_hash),
    ensures
        ({
            let registered = process_spec(
                s,
                RequestView::AddUser { username, password_hash, privileges },
                registered_at,
            ).0;
            let reply = process_spec(registered, RequestView::Login { username, password }, now).1;
            &&& reply matches Some(DbReply::Login(Ok(outcome)))
            &&& outcome.granted() == Some(privileges)
        }),
{
    let request = RequestView::AddUser { username, password_hash, privileges };
    let registered = process_spec(s, request, registered_at).0;
    lemma_process_keeps_wf(s, request, registered_at);
    let index = s.rows.len() as int;
    lemma_login_by_password(registered, index, password, now);
}

/// After a user has been registered, a login with a password that the
/// stored hash does not verify is rejected.
pub proof fn lemma_wrong_password_after_register(
    s: DatabaseState,
    username: Seq<char>,
    password_hash: Seq<char>,
    privileges: i32,
    registered_at: Timestamp,
    other_password: Seq<char>,
    now: Timestamp,
)
    requires
        state_wf(s),
        !s.closed,
        !has_username(s.rows, username),
        next_id(s.rows) <= i32::MAX,
        !password_verifies(other_password, password_hash),
    ensures
        ({
            let registered = process_spec(
                s,
                RequestView::AddUser { username, password_hash, privileges },
                registered_at,
            ).0;
            process_spec(
                registered,
                RequestView::Login { username, password: other_password },
                now,
            ) == (registered, Some(DbReply::Login(Ok(LoginOutcome::Rejected))))
        }),
{
    let request = RequestView::AddUser { username, password_hash, privileges };
    let registered = process_spec(s, request, registered_at).0;
    lemma_process_keeps_wf(s, request, registered_at);
    let index = s.rows.len() as int;
    lemma_login_by_password(registered, index, other_password, now);
}

/// A privilege change takes effect and refreshes the staleness anchor: a
/// login with the right password that follows within 30 days is granted the
/// new privilege outright, however high it is, and the hook stays silent.
pub proof fn lemma_login_after_set_privileges(
    s: DatabaseState,
    index: int,
    privileges: i32,
    changed_at: Timestamp,
    password: Seq<char>,
    now: Timestamp,
)
    requires
        state_wf(s),
        !s.closed,
        0 <= index < s.rows.len(),
        password_verifies(password, s.rows[index].password_hash),
        now.as_nanos() - changed_at.secs * NANOS_PER_SEC <= STALE_AFTER_SECS * NANOS_PER_SEC,
    ensures
        ({
            let changed = process_spec(
                s,
                RequestView::SetUserPrivileges { user_id: s.rows[index].id, privileges },
                changed_at,
            );
            &&& changed.1 == Some(DbReply::SetUserPrivileges(Ok(())))
            &&& changed.0.rows[index].privileges_last_updated == Some(changed_at.secs)
            &&& process_spec(
                changed.0,
                RequestView::Login { username: s.rows[index].username, password },
                now,
            ) == (changed.0, Some(DbReply::Login(Ok(LoginOutcome::Granted(privileges)))))
        }),
{
    let request = RequestView::SetUserPrivileges { user_id: s.rows[index].id, privileges };
    let changed = process_spec(s, request, changed_at).0;
    lemma_process_keeps_wf(s, request, changed_at);
    lemma_lookup_at(changed.rows, index);
}

/// A privilege change for an id that no record has is answered with
/// `NotFound` and changes nothing.
pub proof fn lemma_set_privileges_unknown_id(
    s: DatabaseState,
    user_id: i32,
    privileges: i32,
    now: Timestamp,
)
    requires
        !s.closed,
        !has_id(s.rows, user_id),
    ensures
        process_spec(s, RequestView::SetUserPrivileges { user_id, privileges }, now) == (
            s,
            Some(DbReply::SetUserPrivileges(Err(UpdateError::NotFound))),
        ),
{
}

/// Moving an anchor keeps the table well formed.
pub proof fn lemma_with_anchor_keeps_wf(rows: Seq<UserRow>, username: Seq<char>, anchor: Option<i64>)
    requires
        rows_wf(rows),
    ensures
        rows_wf(with_anchor(rows, username, anchor)),
{
}

/// How far an anchor that was moved back by `delta_secs` seconds lies
/// behind `now`, in nanoseconds. Without the two corrections that
/// `backdated` makes this is `delta_secs` seconds and the nanoseconds of
/// `now`.
pub proof fn lemma_backdated_age(now: Timestamp, delta_secs: i64)
    requires
        0 <= delta_secs,
        now.secs - delta_secs >= i64::MIN,
    ensures
        elapsed_nanos(backdated(now.secs, delta_secs) as int, now) == delta_secs * NANOS_PER_SEC
            + now.nanos,
{
}

/// The next login with the right password after an account's anchor has
/// been moved back by `delta_secs` seconds from the second in which the
/// login falls. If the privilege is elevated and the anchor now lies more
/// than 30 days back, the login is granted pending re-verification and the
/// hook is invoked exactly once, with the account's privilege, id and
/// external identity. If the anchor lies 30 days back or less, or the
/// privilege is 0 or 1 whatever the anchor, the login is granted outright
/// and the hook is not invoked.
pub proof fn lemma_login_after_backdating(
    s: DatabaseState,
    index: int,
    delta_secs: i64,
    password: Seq<char>,
    now: Timestamp,
)
    requires
        state_wf(s),
        !s.closed,
        0 <= index < s.rows.len(),
        password_verifies(password, s.rows[index].password_hash),
    ensures
        ({
            let row = s.rows[index];
            let anchor = backdated(now.secs, delta_secs);
            let aged = DatabaseState {
                rows: with_anchor(s.rows, row.username, Some(anchor)),
                ..s
            };
            let handled = process_spec(
                aged,
                RequestView::Login { username: row.username, password },
                now,
            );
            let elevated = row.privileges != 0 && row.privileges != 1;
            let overdue = elapsed_nanos(anchor as int, now) > STALE_AFTER_SECS * NANOS_PER_SEC;
            &&& elevated && overdue ==> handled == (
                DatabaseState {
                    observed: hooked(s.observed, verification_args(row)),
                    ..aged
                },
                Some(DbReply::Login(Ok(LoginOutcome::GrantedPendingVerification(row.privileges)))),
            )
            &&& !(elevated && overdue) ==> handled == (
                aged,
                Some(DbReply::Login(Ok(LoginOutcome::Granted(row.privileges)))),
            )
        }),
{
    let row = s.rows[index];
    let anchor = backdated(now.secs, delta_secs);
    let aged_rows = with_anchor(s.rows, row.username, Some(anchor));
    lemma_with_anchor_keeps_wf(s.rows, row.username, Some(anchor));
    lemma_lookup_at(aged_rows, index);
}

/// A turn of the worker takes a request off a queue that holds one.
pub proof fn lemma_step_shrinks(s: DatabaseState, now: Timestamp)
    requires
        s.pending.len() > 0,
    ensures
        step_spec(s, now).0.pending.len() < s.pending.len(),
{
}

/// The worker's loop always comes to an end with an empty queue, and sends
/// at most one reply for each request that was queued.
pub proof fn lemma_run_drains(s: DatabaseState, now: Timestamp)
    ensures
        run_spec(s, now).0.pending.len() == 0,
        run_spec(s, now).1.len() <= s.pending.len(),
    decreases s.pending.len(),
{
    if s.pending.len() > 0 {
        lemma_step_shrinks(s, now);
        lemma_run_drains(step_spec(s, now).0, now);
    }
}

/// The worker's loop keeps the state well formed.
pub proof fn lemma_run_keeps_wf(s: DatabaseState, now: Timestamp)
    requires
        state_wf(s),
    ensures
        state_wf(run_spec(s, now).0),
    decreases s.pending.len(),
{
    if s.pending.len() > 0 {
        let rest = DatabaseState { pending: s.pending.drop_first(), ..s };
        lemma_process_keeps_wf(rest, s.pending[0], now);
        lemma_step_shrinks(s, now);
        lemma_run_keeps_wf(step_spec(s, now).0, now);
    }
}

/// Once a `Close` is in the queue the worker shuts down when it runs: it
/// handles what was queued ahead of the `Close`, and nothing after it.
pub proof fn lemma_close_shuts_down(s: DatabaseState, now: Timestamp, position: int)
    requires
        0 <= position < s.pending.len(),
        s.pending[position] == RequestView::Close,
    ensures
        run_spec(s, now).0.closed,
        run_spec(s, now).0.pending.len() == 0,
        run_spec(s, now).1.len() <= position,
    decreases s.pending.len(),
{
    let next = step_spec(s, now).0;
    lemma_run_drains(s, now);
    if s.closed {
        lemma_run_closed(next, now);
    } else if position > 0 && s.pending[0] != RequestView::Close {
        lemma_close_shuts_down(next, now, position - 1);
    }
}

/// After shutdown the worker answers nothing, whatever is handed to it.
pub proof fn lemma_run_closed(s: DatabaseState, now: Timestamp)
    requires
        s.closed,
    ensures
        run_spec(s, now).0.closed,
        run_spec(s, now).0.rows == s.rows,
        run_spec(s, now).0.observed == s.observed,
        run_spec(s, now).0.unreadable == s.unreadable,
        run_spec(s, now).1.len() == 0,
    decreases s.pending.len(),
{
    if s.pending.len() > 0 {
        lemma_run_closed(step_spec(s, now).0, now);
    }
}

/// Requests are handled in the order in which they were queued. A request
/// queued behind others is handled after all of them, against the state
/// they leave, and has no effect on how they are handled or answered. If
/// one of them shuts the worker down, the request is never handled.
pub proof fn lemma_queue_is_fifo(s: DatabaseState, request: RequestView, now: Timestamp)
    requires
        state_wf(s),
    ensures
        ({
            let queued = DatabaseState { pending: s.pending.push(request), ..s };
            let before = run_spec(s, now);
            let last = process_spec(before.0, request, now);
            run_spec(queued, now) == (
                last.0,
                match last.1 {
                    Some(reply) => before.1.push(reply),
                    None => before.1,
                },
            )
        }),
    decreases s.pending.len(),
{
    let queued = DatabaseState { pending: s.pending.push(request), ..s };
    if s.pending.len() == 0 {
        // The request is alone in the queue: one turn handles it and
        // leaves the queue empty.
        let handled = step_spec(queued, now);
        assert(run_spec(handled.0, now) == (handled.0, Seq::<DbReply>::empty()));
    } else {
        // The worker takes the same request off either queue, and what is
        // left of the two queues differs by `request` at the end, as before.
        let head = s.pending[0];
        let rest = DatabaseState { pending: s.pending.drop_first(), ..s };
        let rest_queued = DatabaseState { pending: queued.pending.drop_first(), ..queued };
        assert(rest_queued.pending =~= rest.pending.push(request));
        lemma_process_keeps_wf(rest, head, now);
        if head != RequestView::Close {
            lemma_queue_is_fifo(process_spec(rest, head, now).0, request, now);
        }
    }
}

} // verus!
