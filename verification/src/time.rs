//! Instants on the UTC time line, as plain integers.

use vstd::prelude::*;

verus! {

/// Nanoseconds in one day.
pub const NANOS_PER_DAY: i128 = 86_400_000_000_000;

/// Integer division that rounds toward zero, for a positive divisor.
pub open spec fn div_toward_zero(a: int, b: int) -> int
    recommends
        b > 0,
{
    if a >= 0 {
        a / b
    } else {
        -((-a) / b)
    }
}

/// An instant: whole seconds since 1970-01-01T00:00:00Z and the nanoseconds
/// past that second.
///
/// Two instants are compared by [`Timestamp::as_nanos`], never by their fields.
#[derive(Clone, Copy, Debug, PartialEq, Eq, Structural)]
pub struct Timestamp {
    /// Whole seconds since the Unix epoch; negative before 1970.
    pub secs: i64,
    /// Nanoseconds past `secs`.
    pub nanos: u32,
}

impl Timestamp {
    /// The instant as a count of nanoseconds since the Unix epoch.
    pub open spec fn as_nanos(self) -> int {
        self.secs * 1_000_000_000 + self.nanos
    }

    /// Whole seconds from `earlier` to `self`, rounded toward zero; negative
    /// when `earlier` is the later instant.
    pub open spec fn spec_whole_seconds_since(self, earlier: Timestamp) -> int {
        div_toward_zero(self.as_nanos() - earlier.as_nanos(), 1_000_000_000)
    }

    /// Whole days from `earlier` to `self`, rounded toward zero.
    pub open spec fn spec_whole_days_since(self, earlier: Timestamp) -> int {
        div_toward_zero(self.as_nanos() - earlier.as_nanos(), 86_400_000_000_000)
    }

    /// The instant `secs` seconds and `nanos` nanoseconds after the epoch.
    pub fn new(secs: i64, nanos: u32) -> (t: Timestamp)
        ensures
            t.secs == secs,
            t.nanos == nanos,
    {
        Timestamp { secs, nanos }
    }

    /// The instant `secs` whole seconds after the epoch.
    pub fn from_secs(secs: i64) -> (t: Timestamp)
        ensures
            t.secs == secs,
            t.nanos == 0,
            t.as_nanos() == secs * 1_000_000_000,
    {
        Timestamp { secs, nanos: 0 }
    }

    /// The current instant, read from `chrono::Utc::now`.
    ///
    /// Nothing is claimed about the value. chrono itself gives up when the
    /// system clock reads earlier than 1970.
    #[verifier::external_body]
    pub(crate) fn now() -> Timestamp {
        let t = chrono::Utc::now();
        Timestamp { secs: t.timestamp(), nanos: t.timestamp_subsec_nanos() }
    }

    /// Nanoseconds from `earlier` to `self`; negative when `earlier` is the
    /// later instant.
    pub fn age_nanos(&self, earlier: &Timestamp) -> (d: i128)
        ensures
            d == self.as_nanos() - earlier.as_nanos(),
    {
        let secs: i128 = self.secs as i128 - earlier.secs as i128;
        let sub: i128 = self.nanos as i128 - earlier.nanos as i128;
        secs * 1_000_000_000 + sub
    }

    /// Whether `self` is strictly earlier than `other`.
    pub fn is_before(&self, other: &Timestamp) -> (r: bool)
        ensures
            r == (self.as_nanos() < other.as_nanos()),
    {
        self.age_nanos(other) < 0
    }

    /// Whether `self` and `other` are the same instant.
    pub fn same_instant(&self, other: &Timestamp) -> (r: bool)
        ensures
            r == (self.as_nanos() == other.as_nanos()),
    {
        self.age_nanos(other) == 0
    }

    /// Whole seconds elapsed from `earlier` to `self`, rounded toward zero.
    pub fn whole_seconds_since(&self, earlier: &Timestamp) -> (s: i128)
        ensures
            s == self.spec_whole_seconds_since(*earlier),
    {
        self.age_nanos(earlier) / 1_000_000_000
    }

    /// Whole days elapsed from `earlier` to `self`, rounded toward zero.
    ///
    /// A difference of 23 h 59 min is zero days; so is one of minus 23 h.
    pub fn whole_days_since(&self, earlier: &Timestamp) -> (days: i64)
        ensures
            days == self.spec_whole_days_since(*earlier),
    {
        let d: i128 = self.age_nanos(earlier) / NANOS_PER_DAY;
        d as i64
    }
}

/// The later the instant, the more whole days have passed since `earlier`.
pub proof fn lemma_whole_days_monotone(a: Timestamp, b: Timestamp, earlier: Timestamp)
    requires
        a.as_nanos() <= b.as_nanos(),
    ensures
        a.spec_whole_days_since(earlier) <= b.spec_whole_days_since(earlier),
{
    let x = a.as_nanos() - earlier.as_nanos();
    let y = b.as_nanos() - earlier.as_nanos();
    let d = 86_400_000_000_000int;
    if x >= 0 {
        vstd::arithmetic::div_mod::lemma_div_is_ordered(x, y, d);
    } else if y < 0 {
        vstd::arithmetic::div_mod::lemma_div_is_ordered(-y, -x, d);
    } else {
        vstd::arithmetic::div_mod::lemma_div_pos_is_pos(-x, d);
        vstd::arithmetic::div_mod::lemma_div_pos_is_pos(y, d);
    }
}

} // verus!
