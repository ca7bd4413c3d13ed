use vstd::prelude::*;

verus! {

/// Earliest instant representable as a UTC date-time (year -262143, January 1st),
/// in seconds since the Unix epoch.
pub const MIN_TIMESTAMP_SECS: i64 = -8334601315200;

/// Latest whole second representable as a UTC date-time (year 262142, December 31st,
/// 23:59:59), in seconds since the Unix epoch.
pub const MAX_TIMESTAMP_SECS: i64 = 8210266876799;

/// One second, in nanoseconds.
pub const NANOS_PER_SEC: u32 = 1_000_000_000;

/// An instant in UTC, as seconds since the Unix epoch and the nanoseconds within
/// that second. Leap seconds are not represented.
#[derive(Clone, Copy, Debug, PartialEq, Eq, Structural, Hash)]
pub struct UtcDateTime {
    secs: i64,
    nanos: u32,
}

impl UtcDateTime {
    #[verifier::type_invariant]
    spec fn well_formed(self) -> bool {
        &&& MIN_TIMESTAMP_SECS <= self.secs <= MAX_TIMESTAMP_SECS
        &&& self.nanos < NANOS_PER_SEC
    }

    /// Whole seconds since the Unix epoch.
    pub closed spec fn spec_secs(self) -> int {
        self.secs as int
    }

    /// Nanoseconds within the second.
    pub closed spec fn spec_subsec_nanos(self) -> int {
        self.nanos as int
    }

    /// Nanoseconds since the Unix epoch.
    pub open spec fn epoch_nanos(self) -> int {
        self.spec_secs() * 1_000_000_000 + self.spec_subsec_nanos()
    }

    /// Milliseconds since the Unix epoch, rounded towards the earlier millisecond.
    pub open spec fn epoch_millis(self) -> int {
        self.spec_secs() * 1000 + self.spec_subsec_nanos() / 1_000_000
    }

    /// Whether `secs` and `nanos` name a representable instant.
    pub open spec fn representable(secs: int, nanos: int) -> bool {
        &&& MIN_TIMESTAMP_SECS <= secs <= MAX_TIMESTAMP_SECS
        &&& 0 <= nanos < NANOS_PER_SEC
    }

    /// The instant `secs` seconds and `nanos` nanoseconds after the Unix epoch, if
    /// it is representable.
    pub fn from_timestamp(secs: i64, nanos: u32) -> (r: Option<UtcDateTime>)
        ensures
            r is Some <==> Self::representable(secs as int, nanos as int),
            r matches Some(t) ==> t.spec_secs() == secs && t.spec_subsec_nanos() == nanos,
    {
        if MIN_TIMESTAMP_SECS <= secs && secs <= MAX_TIMESTAMP_SECS && nanos < NANOS_PER_SEC {
            Some(UtcDateTime { secs, nanos })
        } else {
            None
        }
    }

    /// Whole seconds since the Unix epoch.
    pub fn timestamp(&self) -> (r: i64)
        ensures
            r == self.spec_secs(),
    {
        self.secs
    }

    /// Nanoseconds within the second.
    pub fn timestamp_subsec_nanos(&self) -> (r: u32)
        ensures
            r == self.spec_subsec_nanos(),
            r < NANOS_PER_SEC,
    {
        proof {
            use_type_invariant(self);
        }
        self.nanos
    }

    /// Milliseconds since the Unix epoch.
    pub fn timestamp_millis(&self) -> (r: i64)
        ensures
            r == self.epoch_millis(),
    {
        proof {
            use_type_invariant(self);
        }
        self.secs * 1000 + (self.nanos / 1_000_000) as i64
    }
}

impl UtcDateTime {
    /// Whether the instant `n` nanoseconds after the Unix epoch is representable.
    pub open spec fn representable_nanos(n: int) -> bool {
        MIN_TIMESTAMP_SECS * 1_000_000_000 <= n <= MAX_TIMESTAMP_SECS * 1_000_000_000 + 999_999_999
    }

    /// The instant `millis` milliseconds after this one (before it, for a
    /// negative count), if it is representable.
    pub fn checked_add_millis(&self, millis: i64) -> (r: Option<UtcDateTime>)
        ensures
            r is Some <==> UtcDateTime::representable_nanos(self.epoch_nanos() + millis * 1_000_000),
            r matches Some(t) ==> t.epoch_nanos() == self.epoch_nanos() + millis * 1_000_000,
    {
        proof {
            use_type_invariant(self);
        }
        let lo: i128 = (MIN_TIMESTAMP_SECS as i128) * 1_000_000_000;
        let hi: i128 = (MAX_TIMESTAMP_SECS as i128) * 1_000_000_000 + 999_999_999;
        let total: i128 = (self.secs as i128) * 1_000_000_000 + (self.nanos as i128) + (millis as i128)
            * 1_000_000;
        if total < lo || total > hi {
            return None;
        }
        let offset: u128 = (total - lo) as u128;
        let whole: u128 = offset / 1_000_000_000;
        let rest: u128 = offset % 1_000_000_000;
        proof {
            assert(offset == whole * 1_000_000_000 + rest) by (nonlinear_arith)
                requires
                    whole == offset / 1_000_000_000,
                    rest == offset % 1_000_000_000,
            ;
            assert(whole <= MAX_TIMESTAMP_SECS - MIN_TIMESTAMP_SECS) by (nonlinear_arith)
                requires
                    whole == offset / 1_000_000_000,
                    offset <= (MAX_TIMESTAMP_SECS - MIN_TIMESTAMP_SECS) * 1_000_000_000 + 999_999_999,
            ;
        }
        let secs: i64 = (whole as i64) + MIN_TIMESTAMP_SECS;
        let nanos: u32 = rest as u32;
        Some(UtcDateTime { secs, nanos })
    }
}

/// A source of the current time.
pub trait Clock {
    /// Whether `t` is a time that the clock may read. A clock that says nothing
    /// of its readings may read any time; the time goes on, so two readings
    /// need not agree.
    open spec fn spec_reads(&self, t: UtcDateTime) -> bool {
        true
    }

    fn now(&self) -> (r: UtcDateTime)
        ensures
            self.spec_reads(r),
    ;
}

} // verus!
