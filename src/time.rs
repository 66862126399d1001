use vstd::prelude::*;

verus! {

/// An instant in UTC, as whole seconds since the Unix epoch and the
/// nanoseconds past that second.
///
/// A leap second is carried as a nanosecond count of one second or more,
/// so `nanos` stays below two seconds' worth.
#[derive(Clone, Copy, Debug, PartialEq, Eq, Structural)]
pub struct Timestamp {
    pub secs: i64,
    pub nanos: u32,
}

impl Timestamp {
    pub open spec fn wf(self) -> bool {
        self.nanos < 2_000_000_000
    }
}

/// Relies on chrono::Utc::now: it reads the system clock as a duration since
/// the Unix epoch, so the seconds are not negative and the nanoseconds are
/// those of a `Duration`, below one second.
#[verifier::external_body]
pub(crate) fn now_utc() -> (r: Timestamp)
    ensures
        r.secs >= 0,
        r.nanos < 1_000_000_000,
{
    let t = chrono::Utc::now();
    Timestamp { secs: t.timestamp(), nanos: t.timestamp_subsec_nanos() }
}

} // verus!
