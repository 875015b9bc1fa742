//! Conversions between socket timeouts and the `timeval` that
//! `SO_RCVTIMEO` and `SO_SNDTIMEO` hold.
//!
//! A timeout is a number of whole seconds and a number of nanoseconds
//! below one second; `None` stands for no timeout at all.
use vstd::prelude::*;
use crate::error::Error;
use crate::sys::time_t_max;

verus! {

/// The fields of a `timeval` as plain values.
#[derive(Debug, Clone, Copy, PartialEq, Eq, Structural)]
pub struct Timeval {
    /// Whole seconds.
    pub sec: i64,
    /// Microseconds below one second.
    pub usec: i64,
}

/// The `timeval` for a nonzero timeout: seconds clamped to the largest
/// `time_t`, nanoseconds truncated to microseconds, and raised to one
/// microsecond where that truncation would leave nothing.
pub open spec fn timeval_spec(secs: u64, nanos: u32) -> Timeval {
    let sec: i64 = if secs > i64::MAX as u64 { i64::MAX } else { secs as i64 };
    let usec: i64 = (nanos / 1000) as i64;
    if sec == 0 && usec == 0 {
        Timeval { sec: 0, usec: 1 }
    } else {
        Timeval { sec, usec }
    }
}

/// The timeout that a `timeval` read back from the socket stands for.
pub open spec fn duration_spec(tv: Timeval) -> Option<(u64, u32)> {
    if tv.sec == 0 && tv.usec == 0 {
        None
    } else {
        Some((tv.sec as u64, (tv.usec * 1000) as u32))
    }
}

/// The `timeval` to store for `timeout`: all zeros clears the timeout.
/// A zero timeout is refused, since the kernel would read it as none.
pub fn timeval_for(timeout: Option<(u64, u32)>) -> (r: Result<Timeval, Error>)
    ensures
        match timeout {
            None => r == Ok::<Timeval, Error>(Timeval { sec: 0, usec: 0 }),
            Some((secs, nanos)) => if secs == 0 && nanos == 0 {
                r == Err::<Timeval, Error>(Error::ZeroTimeout)
            } else {
                r == Ok::<Timeval, Error>(timeval_spec(secs, nanos))
            },
        },
{
    match timeout {
        None => Ok(Timeval { sec: 0, usec: 0 }),
        Some((secs, nanos)) => {
            if secs == 0 && nanos == 0 {
                return Err(Error::ZeroTimeout);
            }
            let max = time_t_max();
            let sec: i64 = if secs > max as u64 {
                max
            } else {
                secs as i64
            };
            let mut tv = Timeval { sec, usec: (nanos / 1000) as i64 };
            if tv.sec == 0 && tv.usec == 0 {
                tv.usec = 1;
            }
            Ok(tv)
        },
    }
}

/// The timeout that `tv`, as the kernel reported it, stands for.
pub fn duration_of(tv: Timeval) -> (r: Option<(u64, u32)>)
    requires
        0 <= tv.sec,
        0 <= tv.usec < 1_000_000,
    ensures
        r == duration_spec(tv),
{
    if tv.sec == 0 && tv.usec == 0 {
        None
    } else {
        Some((tv.sec as u64, (tv.usec as u32) * 1000))
    }
}

/// A nonzero timeout that is stored and read back comes back truncated to
/// whole microseconds, and as one microsecond where it was shorter.
pub proof fn lemma_timeout_round_trip(secs: u64, nanos: u32)
    requires
        nanos < 1_000_000_000,
        !(secs == 0 && nanos == 0),
        secs <= i64::MAX,
    ensures
        duration_spec(timeval_spec(secs, nanos)) == Some::<(u64, u32)>(
            (secs, if secs == 0 && nanos < 1000 { 1000u32 } else { (nanos / 1000 * 1000) as u32 }),
        ),
{
}

/// A cleared timeout reads back as none.
pub proof fn lemma_cleared_timeout()
    ensures
        duration_spec(Timeval { sec: 0, usec: 0 }) == None::<(u64, u32)>,
{
}

} // verus!
