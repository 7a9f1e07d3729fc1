//! Points in time, as whole seconds and nanoseconds since the Unix epoch (UTC).
use vstd::prelude::*;

verus! {

/// The earliest second that `chrono::DateTime<Utc>` can hold (January 1 of year -262143).
pub const MIN_TIMESTAMP_SECS: i64 = -8334601315200i64;

/// The latest second that `chrono::DateTime<Utc>` can hold (December 31 of year 262142).
pub const MAX_TIMESTAMP_SECS: i64 = 8210266876799i64;

/// A point in time: `secs` seconds after 1970-01-01T00:00:00Z, plus `nanos`
/// nanoseconds (which may reach into a second second only during a leap second).
#[derive(Clone, Copy, Debug, PartialEq, Eq, Structural)]
pub struct Timestamp {
    pub secs: i64,
    pub nanos: u32,
}

/// `t` is a value that `chrono::DateTime<Utc>` can represent: its second lies in
/// chrono's range, and a nanosecond count of a full second or more occurs only
/// in the last second of a minute (a leap second).
pub open spec fn representable(t: Timestamp) -> bool {
    &&& MIN_TIMESTAMP_SECS <= t.secs <= MAX_TIMESTAMP_SECS
    &&& t.nanos < 2_000_000_000
    &&& (t.nanos >= 1_000_000_000 ==> t.secs % 60 == 59)
}

/// The remainder of `-x` by 60, read off the remainder of `x`.
proof fn lemma_negated_mod_60(x: int)
    requires
        x > 0,
    ensures
        (-x) % 60 == if x % 60 == 0 { 0 } else { 60 - x % 60 },
{
    let q = x / 60;
    let r = x % 60;
    assert(x == 60 * q + r && 0 <= r < 60) by (nonlinear_arith)
        requires
            q == x / 60,
            r == x % 60,
    ;
    if r == 0 {
        assert((-x) % 60 == 0) by (nonlinear_arith)
            requires
                x == 60 * q,
        ;
    } else {
        assert((-x) % 60 == 60 - r) by (nonlinear_arith)
            requires
                x == 60 * q + r,
                0 < r < 60,
        ;
    }
}

impl Timestamp {
    /// The point `secs` seconds and `nanos` nanoseconds after the epoch.
    pub fn new(secs: i64, nanos: u32) -> (t: Timestamp)
        ensures
            t.secs == secs,
            t.nanos == nanos,
    {
        Timestamp { secs, nanos }
    }

    /// Whether `chrono::DateTime<Utc>` can represent this point.
    pub fn is_representable(&self) -> (r: bool)
        ensures
            r == representable(*self),
    {
        let minute_second: i64 = if self.secs >= 0 {
            self.secs % 60
        } else {
            let m: i64 = ((-(self.secs as i128)) % 60) as i64;
            proof {
                lemma_negated_mod_60(-(self.secs as int));
            }
            if m == 0 {
                0
            } else {
                60 - m
            }
        };
        MIN_TIMESTAMP_SECS <= self.secs && self.secs <= MAX_TIMESTAMP_SECS && self.nanos
            < 2_000_000_000 && (self.nanos < 1_000_000_000 || minute_second == 59)
    }
}

/// The current time, read from `chrono::Utc::now`.
///
/// Every `DateTime<Utc>` lies in chrono's range, so the result is representable;
/// chrono takes it from the system clock's duration since the Unix epoch, so
/// the second is not before 1970 and the nanoseconds are those of a whole
/// second. Which instant it names depends on the clock and is not stated.
#[verifier::external_body]
pub fn now() -> (t: Timestamp)
    ensures
        representable(t),
        t.secs >= 0,
        t.nanos < 1_000_000_000,
{
    let n = chrono::Utc::now();
    Timestamp { secs: n.timestamp(), nanos: n.timestamp_subsec_nanos() }
}

} // verus!
