//! Elapsed time since a connection's epoch.

use std::time::Instant;

use vstd::prelude::*;

verus! {

/// [`std::time::Instant`], a reading of a monotonic clock. It is opaque: the library keeps one
/// and measures from it.
#[verifier::external_type_specification]
#[verifier::external_body]
pub struct ExInstant(Instant);

/// Calls [`Instant::elapsed`] and converts the duration to whole nanoseconds.
///
/// Nothing is claimed of the result: it depends on when the call is made. Where the clock stands
/// before `epoch`, `elapsed` gives a duration of zero.
#[verifier::external_body]
pub(crate) fn nanos_since(epoch: &Instant) -> (nanos: u128) {
    epoch.elapsed().as_nanos()
}

/// `nanos` is what a measurement of the clock from `epoch` may give. Which counts are such, and
/// when, is left to the clock; a count is known to be one only by taking the measurement.
pub closed spec fn is_reading_since(epoch: Instant, nanos: u128) -> bool {
    call_ensures(nanos_since, (&epoch,), nanos)
}

/// A reading is what the clock itself gave, not something made of it.
pub(crate) proof fn law_reading_is_what_the_clock_gave(epoch: Instant, nanos: u128)
    ensures
        is_reading_since(epoch, nanos) <==> call_ensures(nanos_since, (&epoch,), nanos),
{
}

/// Measure the clock from `epoch`, in nanoseconds.
pub(crate) fn read_since(epoch: &Instant) -> (nanos: u128)
    ensures
        is_reading_since(*epoch, nanos),
        call_ensures(nanos_since, (epoch,), nanos),
{
    nanos_since(epoch)
}

/// The timestamp of a moment that lies `since_epoch` nanoseconds after the epoch: that count,
/// or the greatest `u64` where it does not fit; zero while there is no epoch.
pub open spec fn timestamp_of(since_epoch: Option<u128>) -> u64 {
    match since_epoch {
        None => 0,
        Some(nanos) => if nanos <= u64::MAX {
            nanos as u64
        } else {
            u64::MAX
        },
    }
}

/// Elapsed nanoseconds as a timestamp, using saturating arithmetic.
pub fn saturating_timestamp(since_epoch: Option<u128>) -> (ns: u64)
    ensures
        ns == timestamp_of(since_epoch),
{
    match since_epoch {
        None => 0,
        Some(nanos) => if nanos <= u64::MAX as u128 {
            nanos as u64
        } else {
            u64::MAX
        },
    }
}

/// A later moment never has a smaller timestamp, and none is smaller than the epoch's own zero.
pub proof fn law_timestamp_is_monotonic(earlier: u128, later: u128)
    requires
        earlier <= later,
    ensures
        timestamp_of(None) == timestamp_of(Some(0)) == 0,
        timestamp_of(Some(earlier)) <= timestamp_of(Some(later)),
{
}

/// Within the range of `u64` the timestamp is the elapsed nanoseconds themselves.
pub proof fn law_timestamp_is_exact_in_range(nanos: u128)
    requires
        nanos <= u64::MAX,
    ensures
        timestamp_of(Some(nanos)) == nanos,
{
}

/// Beyond that range the timestamp is the greatest there is.
pub proof fn law_timestamp_saturates_beyond_range(nanos: u128)
    requires
        nanos > u64::MAX,
    ensures
        timestamp_of(Some(nanos)) == u64::MAX,
{
}

} // verus!
