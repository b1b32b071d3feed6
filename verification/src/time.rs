//! Wall-clock instants and the spans of time between them, as whole seconds
//! plus nanoseconds counted from the Unix epoch.

use std::time::{Duration, SystemTime};
use vstd::prelude::*;

verus! {

/// Number of nanoseconds in one second.
pub const NANOS_PER_SEC: u32 = 1_000_000_000;

/// Number of microseconds in one second.
pub const MICROS_PER_SEC: u64 = 1_000_000;

/// Number of nanoseconds in one microsecond.
pub const NANOS_PER_MICRO: u32 = 1_000;

/// Trusted: the type `std::time::SystemTime`, of which nothing is seen.
#[verifier::external_type_specification]
#[verifier::external_body]
pub struct ExSystemTime(SystemTime);

/// Trusted: `SystemTime::now`. The reading depends on the machine's clock, so
/// nothing is claimed of it.
#[verifier::external_body]
fn clock_now() -> (t: SystemTime) {
    SystemTime::now()
}

/// Trusted: `SystemTime::duration_since` against `UNIX_EPOCH`. The distance
/// from the epoch is handed back when the reading is not before it, `None`
/// otherwise; nothing more is claimed.
#[verifier::external_body]
fn since_epoch(t: &SystemTime) -> (d: Option<Duration>) {
    t.duration_since(std::time::UNIX_EPOCH).ok()
}

/// Trusted: `Duration::as_secs`, the whole seconds of a duration.
#[verifier::external_body]
fn whole_secs(d: &Duration) -> (secs: u64) {
    d.as_secs()
}

/// Trusted: `Duration::subsec_nanos`, the fractional part of a duration in
/// nanoseconds, which std documents to be below one second.
#[verifier::external_body]
fn subsec_nanos(d: &Duration) -> (nanos: u32)
    ensures
        nanos < NANOS_PER_SEC,
{
    d.subsec_nanos()
}

/// An instant at or after the Unix epoch.
#[derive(Clone, Copy, Debug, PartialEq, Eq, Structural)]
pub struct Timestamp {
    secs: u64,
    nanos: u32,
}

/// A non-negative span of time.
#[derive(Clone, Copy, Debug, PartialEq, Eq, Structural)]
pub struct Elapsed {
    secs: u64,
    nanos: u32,
}

/// The value of `secs` seconds and `nanos` nanoseconds, in nanoseconds.
pub open spec fn total_nanos(secs: u64, nanos: u32) -> int {
    secs as int * (NANOS_PER_SEC as int) + nanos as int
}

/// Whole microseconds in `secs` seconds and `nanos` nanoseconds.
pub open spec fn total_micros(secs: u64, nanos: u32) -> int {
    secs as int * (MICROS_PER_SEC as int) + (nanos as int) / (NANOS_PER_MICRO as int)
}

/// `micros` as a signed 64-bit wire value: itself where it fits, the largest
/// value otherwise.
pub open spec fn saturate_i64(micros: int) -> int {
    if micros > i64::MAX as int {
        i64::MAX as int
    } else {
        micros
    }
}

fn micros_of(secs: u64, nanos: u32) -> (m: i64)
    requires
        nanos < NANOS_PER_SEC,
    ensures
        m as int == saturate_i64(total_micros(secs, nanos)),
        m >= 0,
{
    assert(secs as int * 1_000_000 <= 0xffff_ffff_ffff_ffff * 1_000_000) by (nonlinear_arith)
        requires
            secs <= 0xffff_ffff_ffff_ffff,
    ;
    let whole: u128 = (secs as u128) * (MICROS_PER_SEC as u128);
    let part: u128 = (nanos / NANOS_PER_MICRO) as u128;
    let sum: u128 = whole + part;
    if sum > i64::MAX as u128 {
        i64::MAX
    } else {
        sum as i64
    }
}

impl Timestamp {
    /// The fractional part is always below one second.
    #[verifier::type_invariant]
    spec fn well_formed(self) -> bool {
        self.nanos < NANOS_PER_SEC
    }

    /// Whole seconds since the epoch.
    pub closed spec fn spec_secs(&self) -> u64 {
        self.secs
    }

    /// Nanoseconds past the whole second.
    pub closed spec fn spec_subsec_nanos(&self) -> u32 {
        self.nanos
    }

    /// Nanoseconds since the epoch.
    pub open spec fn nanos_since_epoch(self) -> int {
        total_nanos(self.spec_secs(), self.spec_subsec_nanos())
    }

    /// Whole microseconds since the epoch.
    pub open spec fn micros_since_epoch(self) -> int {
        total_micros(self.spec_secs(), self.spec_subsec_nanos())
    }

    /// The instant `secs` seconds and `nanos` nanoseconds after the epoch, or
    /// `None` when `nanos` does not denote a fraction of a second.
    pub fn new(secs: u64, nanos: u32) -> (t: Option<Timestamp>)
        ensures
            t.is_some() <==> nanos < NANOS_PER_SEC,
            t matches Some(ts) ==> ts.spec_secs() == secs && ts.spec_subsec_nanos() == nanos,
    {
        if nanos < NANOS_PER_SEC {
            Some(Timestamp { secs, nanos })
        } else {
            None
        }
    }

    /// The epoch itself.
    pub fn epoch() -> (t: Timestamp)
        ensures
            t.spec_secs() == 0,
            t.spec_subsec_nanos() == 0,
    {
        Timestamp { secs: 0, nanos: 0 }
    }

    /// The current reading of the system clock. A clock set before the epoch
    /// reads as the epoch.
    pub fn now() -> (t: Timestamp)
        ensures
            t.spec_subsec_nanos() < NANOS_PER_SEC,
    {
        let reading = clock_now();
        match since_epoch(&reading) {
            Some(d) => Timestamp { secs: whole_secs(&d), nanos: subsec_nanos(&d) },
            None => Timestamp::epoch(),
        }
    }

    #[verifier::when_used_as_spec(spec_secs)]
    pub fn secs(&self) -> (s: u64)
        ensures
            s == self.spec_secs(),
    {
        self.secs
    }

    #[verifier::when_used_as_spec(spec_subsec_nanos)]
    pub fn subsec_nanos(&self) -> (n: u32)
        ensures
            n == self.spec_subsec_nanos(),
            n < NANOS_PER_SEC,
    {
        proof {
            use_type_invariant(self);
        }
        self.nanos
    }

    /// Whether `self` is strictly before `other`.
    pub fn is_before(&self, other: &Timestamp) -> (b: bool)
        ensures
            b == (self.nanos_since_epoch() < other.nanos_since_epoch()),
    {
        proof {
            use_type_invariant(self);
            use_type_invariant(other);
        }
        self.secs < other.secs || (self.secs == other.secs && self.nanos < other.nanos)
    }

    /// The time from `earlier` to `self`; zero when `earlier` is not earlier.
    pub fn elapsed_since(&self, earlier: &Timestamp) -> (e: Elapsed)
        ensures
            e.as_nanos() == if earlier.nanos_since_epoch() <= self.nanos_since_epoch() {
                self.nanos_since_epoch() - earlier.nanos_since_epoch()
            } else {
                0
            },
    {
        proof {
            use_type_invariant(self);
            use_type_invariant(earlier);
        }
        if self.is_before(earlier) {
            Elapsed { secs: 0, nanos: 0 }
        } else if self.nanos >= earlier.nanos {
            Elapsed { secs: self.secs - earlier.secs, nanos: self.nanos - earlier.nanos }
        } else {
            Elapsed {
                secs: self.secs - earlier.secs - 1,
                nanos: self.nanos + NANOS_PER_SEC - earlier.nanos,
            }
        }
    }

    /// Microseconds since the epoch as carried on the wire.
    pub fn wire_micros(&self) -> (m: i64)
        ensures
            m as int == saturate_i64(self.micros_since_epoch()),
            m >= 0,
    {
        proof {
            use_type_invariant(self);
        }
        micros_of(self.secs, self.nanos)
    }
}

impl Elapsed {
    /// The fractional part is always below one second.
    #[verifier::type_invariant]
    spec fn well_formed(self) -> bool {
        self.nanos < NANOS_PER_SEC
    }

    /// Whole seconds of the span.
    pub closed spec fn spec_secs(&self) -> u64 {
        self.secs
    }

    /// Nanoseconds past the whole second.
    pub closed spec fn spec_subsec_nanos(&self) -> u32 {
        self.nanos
    }

    /// The whole span in nanoseconds.
    pub open spec fn as_nanos(self) -> int {
        total_nanos(self.spec_secs(), self.spec_subsec_nanos())
    }

    /// The span in whole microseconds.
    pub open spec fn as_micros(self) -> int {
        total_micros(self.spec_secs(), self.spec_subsec_nanos())
    }

    #[verifier::when_used_as_spec(spec_secs)]
    pub fn secs(&self) -> (s: u64)
        ensures
            s == self.spec_secs(),
    {
        self.secs
    }

    #[verifier::when_used_as_spec(spec_subsec_nanos)]
    pub fn subsec_nanos(&self) -> (n: u32)
        ensures
            n == self.spec_subsec_nanos(),
            n < NANOS_PER_SEC,
    {
        proof {
            use_type_invariant(self);
        }
        self.nanos
    }

    /// The span in microseconds as carried on the wire.
    pub fn wire_micros(&self) -> (m: i64)
        ensures
            m as int == saturate_i64(self.as_micros()),
            m >= 0,
    {
        proof {
            use_type_invariant(self);
        }
        micros_of(self.secs, self.nanos)
    }
}

} // verus!
