//! The privilege staleness policy: when an elevated privilege has gone
//! unconfirmed for too long, a login must be routed through re-verification.

use vstd::prelude::*;
use crate::clock::{parsed_timestamp, stored_format, timestamp_from_text, Timestamp, NANOS_PER_SEC};

verus! {

/// An elevated privilege goes stale once it is unconfirmed for more than
/// this many seconds (30 days).
pub const STALE_AFTER_SECS: i64 = 2_592_000;

/// What the policy found for one account at one instant.
#[derive(Clone, Copy, Debug, PartialEq, Eq, Structural)]
pub enum Staleness {
    /// Privilege 0 or 1: these tiers never expire.
    Exempt,
    /// Elevated, and confirmed within the threshold.
    Fresh,
    /// Elevated, and unconfirmed for longer than the threshold.
    Stale,
    /// Elevated, but the stored anchor could not be read. Treated as not
    /// stale, and kept apart from `Fresh` so that callers can report it.
    Unreadable,
}

/// Nanoseconds between the start of second `anchor` and `now`.
pub open spec fn elapsed_nanos(anchor: int, now: Timestamp) -> int {
    now.as_nanos() - anchor * NANOS_PER_SEC
}

/// The policy as a classification.
pub open spec fn staleness_of(privileges: i32, anchor: Option<i64>, now: Timestamp) -> Staleness {
    if privileges == 0 || privileges == 1 {
        Staleness::Exempt
    } else {
        match anchor {
            None => Staleness::Unreadable,
            Some(t) => if elapsed_nanos(t as int, now) > STALE_AFTER_SECS * NANOS_PER_SEC {
                Staleness::Stale
            } else {
                Staleness::Fresh
            },
        }
    }
}

/// Whether a login must be re-verified: the privilege is elevated, its anchor
/// is readable, and more than 30 days lie between the anchor and `now`.
pub open spec fn stale(privileges: i32, anchor: Option<i64>, now: Timestamp) -> bool {
    &&& privileges != 0
    &&& privileges != 1
    &&& anchor matches Some(t)
    &&& now.as_nanos() - t * NANOS_PER_SEC > STALE_AFTER_SECS * NANOS_PER_SEC
}

/// Classifies an account at `now`. `last_updated` is the anchor in seconds
/// since the epoch, or `None` where the stored value could not be read.
pub fn staleness(privileges: i32, last_updated: Option<i64>, now: Timestamp) -> (s: Staleness)
    ensures
        s == staleness_of(privileges, last_updated, now),
        (s == Staleness::Stale) == stale(privileges, last_updated, now),
{
    if privileges == 0 || privileges == 1 {
        return Staleness::Exempt;
    }
    match last_updated {
        None => Staleness::Unreadable,
        Some(anchor) => {
            let whole: i128 = now.secs as i128 - anchor as i128;
            assert(-0x1_0000_0000_0000_0000 * NANOS_PER_SEC <= whole * NANOS_PER_SEC
                < 0x1_0000_0000_0000_0000 * NANOS_PER_SEC) by (nonlinear_arith)
                requires
                    -0x1_0000_0000_0000_0000 <= whole < 0x1_0000_0000_0000_0000,
                    NANOS_PER_SEC > 0,
            ;
            let elapsed: i128 = whole * (NANOS_PER_SEC as i128) + now.nanos as i128;
            let limit: i128 = (STALE_AFTER_SECS as i128) * (NANOS_PER_SEC as i128);
            if elapsed > limit {
                Staleness::Stale
            } else {
                Staleness::Fresh
            }
        },
    }
}

/// Decides whether a successful login must be re-verified.
pub fn needs_reverification(privileges: i32, last_updated: Option<i64>, now: Timestamp) -> (b: bool)
    ensures
        b == stale(privileges, last_updated, now),
        (privileges == 0 || privileges == 1) ==> !b,
        last_updated is None ==> !b,
{
    staleness(privileges, last_updated, now) == Staleness::Stale
}

/// The same decision for an anchor still in its stored text form. Text that
/// does not parse never makes a login stale.
pub fn needs_reverification_text(privileges: i32, last_updated: &str, now: Timestamp) -> (b: bool)
    ensures
        b == stale(privileges, parsed_timestamp(last_updated@, stored_format()), now),
        parsed_timestamp(last_updated@, stored_format()) is None ==> !b,
{
    let anchor = timestamp_from_text(last_updated);
    needs_reverification(privileges, anchor, now)
}

} // verus!
