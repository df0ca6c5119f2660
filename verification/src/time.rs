//! Timestamps stored in NTFS structures.
use vstd::prelude::*;

use vstd::std_specs::convert::FromSpecImpl;

use std::time::SystemTime;

use crate::error::{NtfsError, Result};

verus! {

/// An NTFS timestamp, used for expressing file times.
///
/// NTFS (and the Windows NT line of operating systems) represent time as an unsigned 64-bit integer
/// counting the number of 100-nanosecond intervals since January 1, 1601.
#[derive(Clone, Copy, Debug, Eq, PartialEq, Structural)]
pub struct NtfsTime(pub u64);

/// Number of 100-nanosecond intervals between the NT epoch (1601-01-01) and the Unix epoch (1970-01-01).
pub const EPOCH_DIFFERENCE_IN_INTERVALS: u64 = 116_444_736_000_000_000;
/// Number of 100-nanosecond intervals per second.
pub const INTERVALS_PER_SECOND: u64 = 10_000_000;
/// Number of seconds between the NT epoch (1601-01-01) and the Unix epoch (1970-01-01).
pub const EPOCH_DIFFERENCE_IN_SECONDS: i64 = 11_644_473_600;

/// The NT timestamp of `seconds` and `subsec_nanos` nanoseconds after the Unix epoch (the seconds
/// may be negative), or `None` if it lies before the NT epoch or does not fit into 64 bits.
/// The nanoseconds are truncated to whole 100-nanosecond intervals.
pub open spec fn spec_nt_timestamp_from_unix(seconds: i64, subsec_nanos: u32) -> Option<u64> {
    let since_nt_epoch = seconds + EPOCH_DIFFERENCE_IN_SECONDS;
    let intervals = since_nt_epoch * INTERVALS_PER_SECOND + subsec_nanos / 100;
    if since_nt_epoch < 0 || intervals > u64::MAX {
        None
    } else {
        Some(intervals as u64)
    }
}

/// The NT timestamp of a duration of `seconds` and `subsec_nanos` nanoseconds after the Unix epoch,
/// or `None` if it does not fit into 64 bits.
/// The nanoseconds are truncated to whole 100-nanosecond intervals.
pub open spec fn spec_nt_timestamp_from_unix_duration(seconds: u64, subsec_nanos: u32) -> Option<u64> {
    let intervals = seconds * INTERVALS_PER_SECOND + subsec_nanos / 100 + EPOCH_DIFFERENCE_IN_INTERVALS;
    if intervals > u64::MAX {
        None
    } else {
        Some(intervals as u64)
    }
}

impl NtfsTime {
    /// Returns the stored NT timestamp (number of 100-nanosecond intervals since January 1, 1601).
    pub fn nt_timestamp(&self) -> (r: u64)
        ensures
            r == self.0,
    {
        self.0
    }

    /// Returns the time `seconds` and `subsec_nanos` nanoseconds after the Unix epoch
    /// (1970-01-01 00:00:00 UTC; the seconds may be negative), or [`NtfsError::InvalidTime`]
    /// if it lies before the NT epoch or beyond what an NT timestamp can hold
    /// (see [`spec_nt_timestamp_from_unix`]).
    pub fn from_unix_timestamp(seconds: i64, subsec_nanos: u32) -> (r: Result<Self>)
        ensures
            match spec_nt_timestamp_from_unix(seconds, subsec_nanos) {
                Some(t) => r == Ok::<NtfsTime, NtfsError>(NtfsTime(t)),
                None => r == Err::<NtfsTime, NtfsError>(NtfsError::InvalidTime),
            },
    {
        let since_nt_epoch = match seconds.checked_add(EPOCH_DIFFERENCE_IN_SECONDS) {
            Some(s) => s,
            None => return Err(NtfsError::InvalidTime),
        };
        if since_nt_epoch < 0 {
            return Err(NtfsError::InvalidTime);
        }
        let since_nt_epoch = since_nt_epoch as u64;
        let intervals = match since_nt_epoch.checked_mul(INTERVALS_PER_SECOND) {
            Some(i) => i,
            None => return Err(NtfsError::InvalidTime),
        };
        match intervals.checked_add(subsec_nanos as u64 / 100) {
            Some(i) => Ok(NtfsTime(i)),
            None => Err(NtfsError::InvalidTime),
        }
    }

    /// Returns the time a duration of `seconds` and `subsec_nanos` nanoseconds after the Unix epoch,
    /// or [`NtfsError::InvalidTime`] if it lies beyond what an NT timestamp can hold
    /// (see [`spec_nt_timestamp_from_unix_duration`]).
    pub fn from_unix_duration(seconds: u64, subsec_nanos: u32) -> (r: Result<Self>)
        ensures
            match spec_nt_timestamp_from_unix_duration(seconds, subsec_nanos) {
                Some(t) => r == Ok::<NtfsTime, NtfsError>(NtfsTime(t)),
                None => r == Err::<NtfsTime, NtfsError>(NtfsError::InvalidTime),
            },
    {
        let intervals = match seconds.checked_mul(INTERVALS_PER_SECOND) {
            Some(i) => i,
            None => return Err(NtfsError::InvalidTime),
        };
        let intervals = match intervals.checked_add(subsec_nanos as u64 / 100) {
            Some(i) => i,
            None => return Err(NtfsError::InvalidTime),
        };
        match intervals.checked_add(EPOCH_DIFFERENCE_IN_INTERVALS) {
            Some(i) => Ok(NtfsTime(i)),
            None => Err(NtfsError::InvalidTime),
        }
    }

    /// Returns this time as whole seconds since the Unix epoch (negative before it) and the
    /// nanoseconds within the second.
    pub fn unix_timestamp(&self) -> (r: (i64, u32))
        ensures
            r.0 == self.0 / INTERVALS_PER_SECOND - EPOCH_DIFFERENCE_IN_SECONDS,
            r.1 == self.0 % INTERVALS_PER_SECOND * 100,
            r.1 < 1_000_000_000,
    {
        let seconds_since_nt_epoch = (self.0 / INTERVALS_PER_SECOND) as i64;
        let subintervals = (self.0 % INTERVALS_PER_SECOND) as u32;
        (seconds_since_nt_epoch - EPOCH_DIFFERENCE_IN_SECONDS, subintervals * 100)
    }
}

#[verifier::external_type_specification]
#[verifier::external_body]
pub struct ExSystemTime(SystemTime);

/// Returns the duration from the Unix epoch to `st` as whole seconds and the nanoseconds within the
/// second, or `None` for a time before the Unix epoch.
///
/// Calls `SystemTime::duration_since(SystemTime::UNIX_EPOCH)` and splits the `Duration` with
/// `as_secs` and `subsec_nanos`; the contract claims only that the nanoseconds stay below one second.
/// What the duration is depends on the clock reading held by `st`, which is left unsaid.
#[verifier::external_body]
fn duration_since_unix_epoch(st: SystemTime) -> (r: Option<(u64, u32)>)
    ensures
        r matches Some((_, nanos)) ==> nanos < 1_000_000_000,
{
    match st.duration_since(SystemTime::UNIX_EPOCH) {
        Ok(d) => Some((d.as_secs(), d.subsec_nanos())),
        Err(_) => None,
    }
}

impl NtfsTime {
    /// Returns the NT timestamp of a system time, or [`NtfsError::InvalidTime`] for a time before
    /// the Unix epoch or beyond what an NT timestamp can hold.
    pub fn from_system_time(st: SystemTime) -> (r: Result<Self>)
        ensures
            r matches Ok(t) ==> t.0 >= EPOCH_DIFFERENCE_IN_INTERVALS,
    {
        match duration_since_unix_epoch(st) {
            Some((seconds, subsec_nanos)) => Self::from_unix_duration(seconds, subsec_nanos),
            None => Err(NtfsError::InvalidTime),
        }
    }
}

/// Converting a time to Unix seconds and nanoseconds and back gives the same time.
pub proof fn lemma_unix_timestamp_roundtrip(t: NtfsTime)
    ensures
        spec_nt_timestamp_from_unix(
            (t.0 / INTERVALS_PER_SECOND - EPOCH_DIFFERENCE_IN_SECONDS) as i64,
            (t.0 % INTERVALS_PER_SECOND * 100) as u32,
        ) == Some(t.0),
{
    let q = t.0 / INTERVALS_PER_SECOND;
    let m = t.0 % INTERVALS_PER_SECOND;
    assert(t.0 == q * INTERVALS_PER_SECOND + m) by (nonlinear_arith)
        requires
            q == t.0 / INTERVALS_PER_SECOND,
            m == t.0 % INTERVALS_PER_SECOND,
    ;
    assert((m * 100) / 100 == m) by (nonlinear_arith);
}

/// NTFS times count 100-nanosecond intervals since 1601-01-01, which lies 11644473600 seconds
/// before the Unix epoch: `s` seconds and `n` nanoseconds after the Unix epoch are the time
/// `(s + 11644473600) * 10^7 + n / 100`, and the latest Unix second of a time `t` is
/// `t / 10^7 - 11644473600`, with the rest of `t` in nanoseconds.
pub proof fn lemma_nt_time_scale(t: NtfsTime, seconds: i64, subsec_nanos: u32)
    ensures
        seconds >= -11_644_473_600 && (seconds + 11_644_473_600) * 10_000_000 + subsec_nanos / 100
            <= u64::MAX ==> spec_nt_timestamp_from_unix(seconds, subsec_nanos) == Some(
            ((seconds + 11_644_473_600) * 10_000_000 + subsec_nanos / 100) as u64,
        ),
        seconds >= 0 && (seconds + 11_644_473_600) * 10_000_000 + subsec_nanos / 100 <= u64::MAX
            ==> spec_nt_timestamp_from_unix_duration(seconds as u64, subsec_nanos) == Some(
            ((seconds + 11_644_473_600) * 10_000_000 + subsec_nanos / 100) as u64,
        ),
        t.0 / INTERVALS_PER_SECOND - EPOCH_DIFFERENCE_IN_SECONDS == t.0 / 10_000_000 - 11_644_473_600,
        t.0 % INTERVALS_PER_SECOND * 100 == t.0 % 10_000_000 * 100,
{
}

impl From<u64> for NtfsTime {
    fn from(value: u64) -> (r: Self) {
        NtfsTime(value)
    }
}

impl FromSpecImpl<u64> for NtfsTime {
    open spec fn obeys_from_spec() -> bool {
        true
    }

    open spec fn from_spec(v: u64) -> Self {
        NtfsTime(v)
    }
}

} // verus!
