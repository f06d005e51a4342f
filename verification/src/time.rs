//! Points in time, counted from the Unix epoch.

use crate::error::BlockError;
use std::time::Duration;
use std::time::SystemTime;
use std::time::SystemTimeError;
use std::time::UNIX_EPOCH;
use vstd::prelude::*;

verus! {

/// The number of nanoseconds in one second.
pub const NANOS_PER_SEC: u128 = 1_000_000_000;

/// A point in time at or after the Unix epoch, to the nanosecond.
///
/// Its view is the number of nanoseconds that have passed since the epoch.
/// Every such number is a timestamp, so the type has no invariant, and two
/// timestamps are equal exactly when their views are.
#[derive(Clone, Copy, Debug, PartialEq, Eq, Structural, PartialOrd, Ord, Hash)]
pub struct Timestamp {
    nanos: u128,
}

impl View for Timestamp {
    type V = nat;

    closed spec fn view(&self) -> nat {
        self.nanos as nat
    }
}

/// `std::time::SystemTime`, a reading of the system clock. Nothing is known
/// of a value of it until it has been measured against the epoch.
#[verifier::external_type_specification]
#[verifier::external_body]
pub struct ExSystemTime(SystemTime);

/// `std::time::SystemTimeError`, which `SystemTime::duration_since` returns
/// when the time it is asked about lies before the one it is measured from.
#[verifier::external_type_specification]
#[verifier::external_body]
pub struct ExSystemTimeError(SystemTimeError);

/// `SystemTime::now` reads the system clock. Nothing is claimed of the
/// reading.
pub assume_specification[ SystemTime::now ]() -> (t: SystemTime);

/// `Duration::as_nanos` gives the length of a duration in nanoseconds.
/// Nothing is claimed of the number.
pub assume_specification[ Duration::as_nanos ](d: &Duration) -> (n: u128);

/// Calls `SystemTime::duration_since` to measure `t` from
/// `std::time::UNIX_EPOCH`: the time that has passed since the epoch, or an
/// error when `t` lies before it. Nothing is claimed of either.
#[verifier::external_body]
fn since_unix_epoch(t: &SystemTime) -> (r: Result<Duration, SystemTimeError>) {
    t.duration_since(UNIX_EPOCH)
}

impl Timestamp {
    /// The whole seconds since the epoch: the part of a timestamp that a
    /// block's digest covers.
    pub open spec fn secs(self) -> nat {
        self@ / (NANOS_PER_SEC as nat)
    }

    /// The nanoseconds from the epoch to the point `secs` seconds and `nanos`
    /// nanoseconds from it: negative for a point before the epoch.
    pub open spec fn unix_offset(secs: i64, nanos: u32) -> int {
        secs * NANOS_PER_SEC + nanos
    }

    /// Timestamps with the same view are the same timestamp.
    pub proof fn lemma_view_determines(a: Timestamp, b: Timestamp)
        ensures
            (a@ == b@) == (a == b),
    {
    }

    /// The epoch itself.
    pub fn epoch() -> (t: Timestamp)
        ensures
            t@ == 0,
    {
        Timestamp { nanos: 0 }
    }

    /// The point in time `secs` seconds and `nanos` nanoseconds from the
    /// epoch, where a negative `secs` counts back from it and `nanos` always
    /// counts forward.
    ///
    /// A point before the epoch is rejected with `InvalidTimestamp`.
    pub fn from_unix(secs: i64, nanos: u32) -> (r: Result<Timestamp, BlockError>)
        ensures
            Self::unix_offset(secs, nanos) < 0 ==> r == Err::<Timestamp, BlockError>(
                BlockError::InvalidTimestamp,
            ),
            Self::unix_offset(secs, nanos) >= 0 ==> r is Ok && r->Ok_0@ == Self::unix_offset(
                secs,
                nanos,
            ),
    {
        let offset: i128 = secs as i128 * 1_000_000_000 + nanos as i128;
        if offset < 0 {
            Err(BlockError::InvalidTimestamp)
        } else {
            Ok(Timestamp { nanos: offset as u128 })
        }
    }

    /// The timestamp for a reading of a clock that has been measured from
    /// the epoch: `Some` of the nanoseconds that have passed since the epoch,
    /// or `None` where the clock stands before it, which is rejected with
    /// `InvalidTimestamp`.
    pub fn from_elapsed(elapsed: Option<u128>) -> (r: Result<Timestamp, BlockError>)
        ensures
            match elapsed {
                Some(nanos) => r is Ok && r->Ok_0@ == nanos,
                None => r == Err::<Timestamp, BlockError>(BlockError::InvalidTimestamp),
            },
    {
        match elapsed {
            Some(nanos) => Ok(Timestamp { nanos }),
            None => Err(BlockError::InvalidTimestamp),
        }
    }

    /// The current time by the system clock, or `InvalidTimestamp` when the
    /// clock stands before the epoch: what `from_elapsed` gives for the
    /// reading, whatever the clock says.
    pub fn now() -> (r: Result<Timestamp, BlockError>)
        ensures
            r is Err ==> r == Err::<Timestamp, BlockError>(BlockError::InvalidTimestamp),
    {
        let reading = SystemTime::now();
        let elapsed = match since_unix_epoch(&reading) {
            Ok(elapsed) => Some(elapsed.as_nanos()),
            Err(_) => None,
        };
        Timestamp::from_elapsed(elapsed)
    }

    /// The nanoseconds since the epoch.
    pub fn as_nanos(&self) -> (n: u128)
        ensures
            n == self@,
    {
        self.nanos
    }

    /// The whole seconds since the epoch.
    pub fn as_secs(&self) -> (s: u128)
        ensures
            s == self.secs(),
    {
        self.nanos / NANOS_PER_SEC
    }

    /// The nanoseconds past the last whole second.
    pub fn subsec_nanos(&self) -> (n: u32)
        ensures
            n == self@ % (NANOS_PER_SEC as nat),
    {
        (self.nanos % NANOS_PER_SEC) as u32
    }
}

} // verus!
