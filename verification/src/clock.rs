//! Points in time, and the clock that gives them.
use vstd::prelude::*;

verus! {

/// A point in time, in UTC: whole seconds since the Unix epoch and the
/// nanoseconds after them. In a leap second the nanoseconds go beyond one
/// billion.
#[derive(Debug, Clone, Copy, PartialEq, Eq, Structural)]
pub struct Timestamp {
    pub seconds: i64,
    pub nanos: u32,
}

impl Timestamp {
    /// The nanoseconds stay below two seconds.
    pub open spec fn valid(self) -> bool {
        self.nanos < 2_000_000_000
    }
}

/// `chrono::Utc::now`: reads the clock. Which time comes back depends on the
/// machine, so nothing is said of it but that its nanoseconds are in range.
#[verifier::external_body]
pub(crate) fn now() -> (r: Timestamp)
    ensures
        r.valid(),
{
    let t = chrono::Utc::now();
    Timestamp { seconds: t.timestamp(), nanos: t.timestamp_subsec_nanos() }
}

} // verus!
