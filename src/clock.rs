use vstd::prelude::*;

verus! {

/// A UTC instant as seconds since the Unix epoch and a sub-second part in
/// nanoseconds. The nanosecond part may reach past one second while a leap
/// second is represented, so instants are ordered by seconds first and then
/// by nanoseconds.
#[derive(Clone, Copy, Debug, PartialEq, Eq, Structural)]
pub struct Timestamp {
    pub secs: i64,
    pub nanos: u32,
}

impl Timestamp {
    /// Strict order of instants.
    pub open spec fn spec_is_before(self, other: Timestamp) -> bool {
        self.secs < other.secs || (self.secs == other.secs && self.nanos < other.nanos)
    }

    /// The instant `secs` whole seconds after the epoch.
    pub fn from_epoch_seconds(secs: i64) -> (r: Timestamp)
        ensures
            r == (Timestamp { secs: secs, nanos: 0 }),
    {
        Timestamp { secs, nanos: 0 }
    }

    /// Whether `self` lies strictly before `other`.
    pub fn is_before(&self, other: &Timestamp) -> (r: bool)
        ensures
            r == self.spec_is_before(*other),
    {
        self.secs < other.secs || (self.secs == other.secs && self.nanos < other.nanos)
    }
}

/// Relies on chrono's `Utc::now` for the current time, split into
/// `timestamp()` and `timestamp_subsec_nanos()`. Nothing is known of the
/// value it returns.
#[verifier::external_body]
pub(crate) fn utc_now() -> (r: Timestamp) {
    let now = chrono::Utc::now();
    Timestamp { secs: now.timestamp(), nanos: now.timestamp_subsec_nanos() }
}

} // verus!
