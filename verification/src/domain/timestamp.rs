//! Points in time as the system clock gives them.
use vstd::prelude::*;

verus! {

/// One billion: the nanoseconds in a second.
pub const NANOS_PER_SECOND: u32 = 1_000_000_000;

/// The latest whole second from the epoch that the system clock can hold.
pub const MAX_CLOCK_SECONDS: u64 = 9_223_372_036_854_775_807;

/// A point in time: whole seconds from the Unix epoch (negative before it, rounded
/// towards the past) and the nanoseconds within that second.
///
/// The order of timestamps is the order of `(unix_seconds, subsec_nanos)`.
#[derive(Debug, Clone, Copy, PartialEq, Eq, PartialOrd, Ord, Hash, Structural)]
pub struct Timestamp {
    unix_seconds: i128,
    subsec_nanos: u32,
}

impl Timestamp {
    #[verifier::type_invariant]
    spec fn within_range(self) -> bool {
        &&& self.subsec_nanos < NANOS_PER_SECOND
        &&& -0x1_0000_0000_0000_0000 <= self.unix_seconds <= 0xffff_ffff_ffff_ffff
    }

    /// Whole seconds from the epoch.
    pub closed spec fn seconds(self) -> int {
        self.unix_seconds as int
    }

    /// Nanoseconds within the second.
    pub closed spec fn nanos(self) -> nat {
        self.subsec_nanos as nat
    }

    /// The timestamp `seconds` whole seconds and `nanos` nanoseconds after the epoch.
    pub fn after_epoch(seconds: u64, nanos: u32) -> (t: Timestamp)
        requires
            nanos < NANOS_PER_SECOND,
        ensures
            t.seconds() == seconds,
            t.nanos() == nanos,
    {
        Timestamp { unix_seconds: seconds as i128, subsec_nanos: nanos }
    }

    /// The timestamp `seconds` whole seconds and `nanos` nanoseconds before the epoch.
    pub fn before_epoch(seconds: u64, nanos: u32) -> (t: Timestamp)
        requires
            nanos < NANOS_PER_SECOND,
        ensures
            t.seconds() * NANOS_PER_SECOND + t.nanos() == -(seconds * NANOS_PER_SECOND + nanos),
            t.nanos() < NANOS_PER_SECOND,
    {
        if nanos == 0 {
            Timestamp { unix_seconds: -(seconds as i128), subsec_nanos: 0 }
        } else {
            Timestamp { unix_seconds: -(seconds as i128) - 1, subsec_nanos: NANOS_PER_SECOND - nanos }
        }
    }

    /// The timestamp a whole number of seconds after the epoch.
    pub closed spec fn at_unix_seconds(seconds: u64) -> Timestamp {
        Timestamp { unix_seconds: seconds as i128, subsec_nanos: 0 }
    }

    /// The epoch plus a whole number of seconds.
    pub fn from_unix_seconds(seconds: u64) -> (t: Timestamp)
        ensures
            t == Timestamp::at_unix_seconds(seconds),
            t.seconds() == seconds,
            t.nanos() == 0,
    {
        Timestamp { unix_seconds: seconds as i128, subsec_nanos: 0 }
    }

    /// The Unix epoch itself.
    pub fn unix_epoch() -> (t: Timestamp)
        ensures
            t.seconds() == 0,
            t.nanos() == 0,
    {
        Timestamp { unix_seconds: 0, subsec_nanos: 0 }
    }

    /// Nanoseconds within the second.
    pub fn subsec_nanos(&self) -> (n: u32)
        ensures
            n == self.nanos(),
            n < NANOS_PER_SECOND,
    {
        proof { use_type_invariant(self); }
        self.subsec_nanos
    }

    /// Whole seconds elapsed since the epoch, or `None` when the timestamp lies before it.
    pub fn whole_seconds_since_epoch(&self) -> (r: Option<u64>)
        ensures
            match r {
                Some(s) => self.seconds() >= 0 && s == self.seconds(),
                None => self.seconds() < 0,
            },
    {
        proof { use_type_invariant(self); }
        if self.unix_seconds >= 0 {
            Some(self.unix_seconds as u64)
        } else {
            None
        }
    }
}

/// A timestamp is determined by its seconds and nanoseconds.
pub proof fn lemma_timestamp_parts(a: Timestamp, b: Timestamp)
    requires
        a.seconds() == b.seconds(),
        a.nanos() == b.nanos(),
    ensures
        a == b,
{
}

/// The timestamp whole seconds after the epoch has those seconds and no nanoseconds.
pub proof fn lemma_at_unix_seconds(seconds: u64)
    ensures
        Timestamp::at_unix_seconds(seconds).seconds() == seconds,
        Timestamp::at_unix_seconds(seconds).nanos() == 0,
{
}

#[verifier::external_type_specification]
#[verifier::external_body]
pub struct ExSystemTime(std::time::SystemTime);

/// The current time of the system clock, from `std::time::SystemTime::now`. It depends on
/// the clock, so nothing is stated of it.
#[verifier::external_body]
fn system_time_now() -> std::time::SystemTime {
    std::time::SystemTime::now()
}

/// How far `time` lies from the Unix epoch, from `SystemTime::duration_since(UNIX_EPOCH)`:
/// whole seconds and nanoseconds after the epoch (`Ok`) or before it (`Err`, the duration of
/// the error). Only what `Duration::subsec_nanos` documents is stated: the nanoseconds are
/// below one billion.
#[verifier::external_body]
fn elapsed_since_unix_epoch(time: &std::time::SystemTime) -> (r: Result<(u64, u32), (u64, u32)>)
    ensures
        match r {
            Ok((_, nanos)) => nanos < NANOS_PER_SECOND,
            Err((_, nanos)) => nanos < NANOS_PER_SECOND,
        },
{
    match time.duration_since(std::time::UNIX_EPOCH) {
        Ok(elapsed) => Ok((elapsed.as_secs(), elapsed.subsec_nanos())),
        Err(error) => Err((error.duration().as_secs(), error.duration().subsec_nanos())),
    }
}

/// The current time.
pub fn current_time() -> Timestamp {
    match elapsed_since_unix_epoch(&system_time_now()) {
        Ok((seconds, nanos)) => Timestamp::after_epoch(seconds, nanos),
        Err((seconds, nanos)) => Timestamp::before_epoch(seconds, nanos),
    }
}

} // verus!
