//! Civil instants and the epoch that times are counted from.

use crate::units::Time;
use vstd::prelude::*;

verus! {

/// The J2000 epoch, noon of the first of January 2000 in universal time, in
/// nanoseconds since the start of 1970.
pub const J2000_UNIX_NANOS: i128 = 946_728_000_000_000_000;

/// A civil instant: nanoseconds since the start of 1970 in universal time.
#[derive(Clone, Copy, Debug, PartialEq, Eq)]
pub struct DateTime {
    pub unix_nanoseconds: i128,
}

impl DateTime {
    /// The time from the epoch to this instant; negative before the epoch.
    pub open spec fn since_epoch(self) -> Time {
        Time { nanoseconds: (self.unix_nanoseconds - J2000_UNIX_NANOS) as i128 }
    }
}

impl Time {
    /// The civil instant at this time from the epoch.
    pub open spec fn civil(self) -> DateTime {
        DateTime { unix_nanoseconds: (self.nanoseconds + J2000_UNIX_NANOS) as i128 }
    }
}

/// The J2000 epoch as a civil instant.
pub fn j2000() -> (dt: DateTime)
    ensures
        dt.unix_nanoseconds == J2000_UNIX_NANOS,
{
    DateTime { unix_nanoseconds: J2000_UNIX_NANOS }
}

/// The time from the epoch to `dt`; negative before the epoch.
pub fn dt_to_internal(dt: DateTime) -> (time: Time)
    requires
        dt.unix_nanoseconds - J2000_UNIX_NANOS >= i128::MIN,
    ensures
        time == dt.since_epoch(),
        time.nanoseconds == dt.unix_nanoseconds - J2000_UNIX_NANOS,
        time.civil() == dt,
{
    Time { nanoseconds: dt.unix_nanoseconds - J2000_UNIX_NANOS }
}

/// The civil instant at `time` from the epoch.
pub fn internal_to_dt(time: Time) -> (dt: DateTime)
    requires
        time.nanoseconds + J2000_UNIX_NANOS <= i128::MAX,
    ensures
        dt == time.civil(),
        dt.unix_nanoseconds == time.nanoseconds + J2000_UNIX_NANOS,
        dt.since_epoch() == time,
{
    DateTime { unix_nanoseconds: time.nanoseconds + J2000_UNIX_NANOS }
}

} // verus!
