//! The observable side of the re-verification hook, and the means to age an
//! account without waiting.

use vstd::prelude::*;
use crate::clock::Timestamp;
use crate::db::store::{clone_text, has_username, text_of, with_anchor};
use crate::db::{backdated, observed_by, Database, DatabaseState};

verus! {

/// The arguments of one invocation of the re-verification hook.
#[derive(Debug, PartialEq, Eq)]
pub struct VerificationCall {
    pub privileges: i32,
    pub user_id: i32,
    pub patreon_id: Option<String>,
    pub patreon_refresh_token: Option<String>,
}

/// The mathematical content of a [`VerificationCall`].
pub ghost struct VerificationArgs {
    pub privileges: i32,
    pub user_id: i32,
    pub patreon_id: Option<Seq<char>>,
    pub patreon_refresh_token: Option<Seq<char>>,
}

impl View for VerificationCall {
    type V = VerificationArgs;

    open spec fn view(&self) -> VerificationArgs {
        VerificationArgs {
            privileges: self.privileges,
            user_id: self.user_id,
            patreon_id: text_of(self.patreon_id),
            patreon_refresh_token: text_of(self.patreon_refresh_token),
        }
    }
}

impl Clone for VerificationCall {
    fn clone(&self) -> (r: Self)
        ensures
            r == *self,
    {
        VerificationCall {
            privileges: self.privileges,
            user_id: self.user_id,
            patreon_id: clone_text(&self.patreon_id),
            patreon_refresh_token: clone_text(&self.patreon_refresh_token),
        }
    }
}

/// Records every invocation of the re-verification hook, in order.
#[derive(Debug)]
pub struct VerificationProbe {
    calls: Vec<VerificationCall>,
}

impl View for VerificationProbe {
    type V = Seq<VerificationArgs>;

    closed spec fn view(&self) -> Seq<VerificationArgs> {
        self.calls@.map_values(|c: VerificationCall| c@)
    }
}

impl VerificationProbe {
    /// A probe that has seen nothing.
    pub fn new() -> (p: VerificationProbe)
        ensures
            p@ == Seq::<VerificationArgs>::empty(),
    {
        VerificationProbe { calls: Vec::new() }
    }

    /// Whether the hook has been invoked at all.
    pub fn was_called(&self) -> (b: bool)
        ensures
            b == (self@.len() > 0),
    {
        self.calls.len() > 0
    }

    /// How many times the hook has been invoked.
    pub fn call_count(&self) -> (n: usize)
        ensures
            n == self@.len(),
    {
        self.calls.len()
    }

    /// The arguments of the most recent invocation.
    pub fn last_call(&self) -> (r: Option<VerificationCall>)
        ensures
            match r {
                Some(call) => self@.len() > 0 && call@ == self@.last(),
                None => self@.len() == 0,
            },
    {
        let n = self.calls.len();
        if n == 0 {
            None
        } else {
            Some(self.calls[n - 1].clone())
        }
    }

    /// Appends one invocation to the record.
    pub fn record_call(&mut self, call: VerificationCall)
        ensures
            final(self)@ == old(self)@.push(call@),
    {
        self.calls.push(call);
    }
}

impl Default for VerificationProbe {
    fn default() -> (p: VerificationProbe)
        ensures
            p@ == Seq::<VerificationArgs>::empty(),
    {
        VerificationProbe::new()
    }
}

/// Installs `probe` in `db`, so that it records every invocation of the
/// hook from now on.
pub fn set_verification_probe(db: &mut Database, probe: VerificationProbe)
    requires
        old(db).wf(),
    ensures
        final(db).wf(),
        final(db)@ == (DatabaseState { observed: Some(probe@), ..old(db)@ }),
{
    db.set_verification_probe(probe);
}

/// Removes the probe from `db` and returns it with what it recorded.
pub fn clear_verification_probe(db: &mut Database) -> (taken: Option<VerificationProbe>)
    requires
        old(db).wf(),
    ensures
        final(db).wf(),
        final(db)@ == (DatabaseState { observed: None, ..old(db)@ }),
        observed_by(taken) == old(db)@.observed,
{
    db.clear_verification_probe()
}

/// Moves the staleness anchor of `username` to `delta_secs` seconds before
/// the second that the clock shows. A negative `delta_secs` counts as zero,
/// so that the anchor is never moved into the future. Returns whether there
/// is such a user.
pub fn backdate_privileges(db: &mut Database, username: &str, delta_secs: i64) -> (found: bool)
    requires
        old(db).wf(),
    ensures
        final(db).wf(),
        found == has_username(old(db)@.rows, username@),
        exists|now: i64|
            final(db)@ == (DatabaseState {
                rows: with_anchor(
                    old(db)@.rows,
                    username@,
                    Some(#[trigger] backdated(now, delta_secs)),
                ),
                ..old(db)@
            }),
{
    let now = Timestamp::now();
    let found = db.backdate_privileges_at(username, delta_secs, now.secs);
    found
}

} // verus!
