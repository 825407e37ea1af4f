//! Instants in time, counted in whole seconds from 1970-01-01T00:00:00Z.
//!
//! Which counts name an instant is decided by `chrono`: its calendar spans
//! some 262 000 years either side of the common era, which is far less than
//! an `i64` of seconds.
use vstd::prelude::*;

verus! {

/// Whether `chrono` has a UTC date and time for this many seconds after the
/// epoch (before it, where negative).
pub uninterp spec fn has_instant(secs: int) -> bool;

/// `chrono::DateTime::from_timestamp` with no nanoseconds: whether it finds
/// a date and time for `secs`.
#[verifier::external_body]
fn on_calendar(secs: i64) -> (r: bool)
    ensures
        r == has_instant(secs as int),
{
    chrono::DateTime::from_timestamp(secs, 0).is_some()
}

/// An instant of UTC, to the second.
#[derive(Debug, Clone, Copy, PartialEq, Eq)]
pub struct Timestamp {
    secs: i64,
}

impl View for Timestamp {
    type V = int;

    closed spec fn view(&self) -> int {
        self.secs as int
    }
}

impl DeepView for Timestamp {
    type V = int;

    open spec fn deep_view(&self) -> int {
        self@
    }
}

impl Timestamp {
    #[verifier::type_invariant]
    spec fn named(self) -> bool {
        has_instant(self.secs as int)
    }

    /// The instant `secs` seconds after the epoch, if the calendar reaches
    /// that far.
    pub fn from_secs(secs: i64) -> (r: Option<Timestamp>)
        ensures
            (match r {
                Some(t) => has_instant(secs as int) && t@ == secs,
                None => !has_instant(secs as int),
            }),
    {
        if on_calendar(secs) {
            Some(Timestamp { secs })
        } else {
            None
        }
    }

    /// Seconds since the epoch. Every `Timestamp` names an instant.
    pub fn secs(&self) -> (r: i64)
        ensures
            r == self@,
            has_instant(self@),
    {
        proof {
            use_type_invariant(self);
        }
        self.secs
    }
}

} // verus!
