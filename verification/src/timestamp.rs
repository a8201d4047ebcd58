//! Points in time, ordered as the clock that stamps revisions orders them.

use vstd::prelude::*;

verus! {

/// A point in time: whole seconds since the Unix epoch and the nanoseconds
/// within that second. During a leap second `nanos` may run up to
/// 1,999,999,999, so two timestamps are ordered by `secs` first and by
/// `nanos` second.
#[derive(Clone, Copy, Debug, PartialEq, Eq, Structural)]
pub struct Timestamp {
    pub secs: i64,
    pub nanos: u32,
}

impl Timestamp {
    /// The position of this timestamp on the time line: an integer that
    /// grows exactly as the timestamp does.
    pub open spec fn instant(self) -> int {
        self.secs as int * 4_294_967_296 + self.nanos as int
    }

    /// The timestamp `nanos` nanoseconds into the second `secs`.
    pub fn new(secs: i64, nanos: u32) -> (t: Timestamp)
        ensures
            t.secs == secs,
            t.nanos == nanos,
    {
        Timestamp { secs, nanos }
    }

    /// Whether `self` lies strictly after `other`.
    pub fn is_after(&self, other: &Timestamp) -> (b: bool)
        ensures
            b == (self.instant() > other.instant()),
    {
        self.secs > other.secs || (self.secs == other.secs && self.nanos > other.nanos)
    }

    /// The first timestamp after this one that a whole number of
    /// nanoseconds below a second can name: one nanosecond later, or the
    /// start of the next second. The last second that can be counted has no
    /// successor but itself.
    pub open spec fn successor(self) -> Timestamp {
        if self.nanos < 999_999_999 {
            Timestamp { secs: self.secs, nanos: (self.nanos + 1) as u32 }
        } else if self.secs < i64::MAX {
            Timestamp { secs: (self.secs + 1) as i64, nanos: 0 }
        } else {
            self
        }
    }

    /// Whether no timestamp follows this one.
    pub open spec fn is_last(self) -> bool {
        self.successor() == self
    }

    /// The first timestamp after this one.
    pub fn next(self) -> (t: Timestamp)
        ensures
            t == self.successor(),
    {
        if self.nanos < 999_999_999 {
            Timestamp { secs: self.secs, nanos: self.nanos + 1 }
        } else if self.secs < i64::MAX {
            Timestamp { secs: self.secs + 1, nanos: 0 }
        } else {
            self
        }
    }

    /// The later of the two timestamps.
    pub fn latest(self, other: Timestamp) -> (t: Timestamp)
        ensures
            t == later(self, other),
    {
        if other.is_after(&self) {
            other
        } else {
            self
        }
    }
}

/// The later of two timestamps; the first where they are equal.
pub open spec fn later(a: Timestamp, b: Timestamp) -> Timestamp {
    if b.instant() > a.instant() {
        b
    } else {
        a
    }
}

/// The revision that a change at `now` gives a resource whose revision was
/// `stored`: `now`, unless the clock has not moved past `stored`, and then
/// the first timestamp after `stored`. So a revision never goes back, and it
/// stands still only at the end of time.
pub open spec fn revision_after(stored: Timestamp, now: Timestamp) -> Timestamp {
    later(stored.successor(), now)
}

/// Whether a revision has moved forward from `stored` to `new`: it has not
/// gone back, and it has not stood still unless `stored` is the last
/// timestamp there is.
pub open spec fn moved_forward(stored: Timestamp, new: Timestamp) -> bool {
    &&& new.instant() >= stored.instant()
    &&& !stored.is_last() ==> new.instant() > stored.instant()
}

/// The revision that a change at `now` gives a resource whose revision was
/// `stored`.
pub fn stamp_after(stored: Timestamp, now: Timestamp) -> (t: Timestamp)
    ensures
        t == revision_after(stored, now),
{
    stored.next().latest(now)
}

/// A change moves the revision of a resource forward: the new revision is
/// strictly later than the stored one unless that is the last timestamp, it
/// is no earlier than the clock reading, and it is the clock reading where
/// the clock has moved past the stored revision.
pub proof fn law_revisions_move_forward(stored: Timestamp, now: Timestamp)
    ensures
        revision_after(stored, now).instant() >= stored.instant(),
        !stored.is_last() ==> revision_after(stored, now).instant() > stored.instant(),
        revision_after(stored, now).instant() >= now.instant(),
        stored.nanos < 999_999_999 && now.instant() > stored.instant() ==> revision_after(
            stored,
            now,
        ) == now,
{
    law_instants_order_timestamps(stored.successor(), now);
}

/// Timestamps are ordered as their instants are: two timestamps at the same
/// instant are the same timestamp, and the one with the later second, or
/// with the later nanosecond in the same second, has the later instant.
pub proof fn law_instants_order_timestamps(a: Timestamp, b: Timestamp)
    ensures
        a.instant() == b.instant() <==> a == b,
        a.instant() < b.instant() <==> a.secs < b.secs || (a.secs == b.secs && a.nanos < b.nanos),
{
}

/// Reads the system clock.
///
/// Calls `chrono::Utc::now` and takes the result apart with
/// `DateTime::timestamp` and `DateTime::timestamp_subsec_nanos`. Nothing is
/// claimed of the value: the clock may stand still or step backwards. The
/// call panics on a machine whose clock stands before 1970.
#[verifier::external_body]
pub(crate) fn now() -> (t: Timestamp) {
    let t = chrono::Utc::now();
    Timestamp { secs: t.timestamp(), nanos: t.timestamp_subsec_nanos() }
}

} // verus!
