//! The wall clock, as plain values.
use vstd::prelude::*;

verus! {

/// An instant in the machine's local time zone: seconds since the Unix
/// epoch, nanoseconds past that second (above a billion only within a leap
/// second) and the zone's offset from UTC in seconds.
#[derive(Clone, Copy, Debug, PartialEq, Eq)]
pub struct LocalTime {
    pub seconds: i64,
    pub nanos: u32,
    pub offset_seconds: i32,
}

/// Reads the wall clock through `chrono::Local::now` and hands back the
/// instant as seconds since the Unix epoch (`timestamp`, not negative:
/// `Utc::now` fails on a clock before the epoch), the sub-second
/// nanoseconds (`timestamp_subsec_nanos`, below two billion as chrono's
/// `NaiveTime` keeps them) and the offset of the local zone from UTC
/// (`local_minus_utc`, strictly within a day as `FixedOffset` keeps it).
/// Which instant comes back is not stated: it is the time of the call.
#[verifier::external_body]
pub fn local_now() -> (t: LocalTime)
    ensures
        t.seconds >= 0,
        t.nanos < 2_000_000_000,
        -86_400 < t.offset_seconds < 86_400,
{
    let now = chrono::Local::now();
    LocalTime {
        seconds: now.timestamp(),
        nanos: now.timestamp_subsec_nanos(),
        offset_seconds: now.offset().local_minus_utc(),
    }
}

} // verus!
