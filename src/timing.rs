//! Conversion of packet timestamps (ticks) to milliseconds of playback time.
use vstd::prelude::*;

verus! {

/// A time base: one tick lasts `numer / denom` seconds.
#[derive(Clone, Copy, Debug, PartialEq, Eq, Structural)]
pub struct TimeBase {
    pub numer: u32,
    pub denom: u32,
}

impl TimeBase {
    /// A time base is usable when neither part is zero.
    pub open spec fn wf(self) -> bool {
        self.numer > 0 && self.denom > 0
    }

    /// Builds a time base; `None` when either part is zero.
    pub fn new(numer: u32, denom: u32) -> (r: Option<TimeBase>)
        ensures
            r.is_some() <==> (numer > 0 && denom > 0),
            r.is_some() ==> r.unwrap().numer == numer && r.unwrap().denom == denom,
    {
        if numer > 0 && denom > 0 {
            Some(TimeBase { numer, denom })
        } else {
            None
        }
    }
}

/// The exact number of milliseconds, rounded down, that `ts` ticks last.
pub open spec fn exact_millis(ts: int, tb: TimeBase) -> int {
    (ts * tb.numer * 1000) / (tb.denom as int)
}

/// `exact_millis`, held at `u64::MAX` where it does not fit.
pub open spec fn millis_of(ts: u64, tb: TimeBase) -> u64 {
    let m = exact_millis(ts as int, tb);
    if m > u64::MAX as int {
        u64::MAX
    } else {
        m as u64
    }
}

/// A tick count `ts` lies at or after `t_ms` milliseconds.
pub open spec fn at_or_after(ts: int, tb: TimeBase, t_ms: int) -> bool {
    ts * tb.numer * 1000 >= t_ms * tb.denom
}

/// Converts a tick count to whole milliseconds (rounded down, saturating).
pub fn ticks_to_millis(ts: u64, tb: TimeBase) -> (r: u64)
    requires
        tb.wf(),
    ensures
        r == millis_of(ts, tb),
{
    let n: u128 = tb.numer as u128;
    let d: u128 = tb.denom as u128;
    assert(ts as int * tb.numer <= u64::MAX as int * u32::MAX as int) by (nonlinear_arith)
        requires ts <= u64::MAX, tb.numer <= u32::MAX;
    let a: u128 = ts as u128 * n;
    assert(a as int * 1000 <= u64::MAX as int * u32::MAX as int * 1000) by (nonlinear_arith)
        requires a as int <= u64::MAX as int * u32::MAX as int;
    let dividend: u128 = a * 1000;
    assert(dividend as int == ts as int * tb.numer * 1000) by (nonlinear_arith)
        requires a as int == ts as int * tb.numer, dividend as int == a as int * 1000;
    let q: u128 = dividend / d;
    if q > u64::MAX as u128 {
        u64::MAX
    } else {
        q as u64
    }
}

/// Playback position and total duration, in milliseconds, of a packet at `ts`
/// on a track whose stream ends at tick `end` (when known) and whose time base
/// is `tb` (when known). Without a time base both are zero; without a known
/// end the duration is zero.
pub open spec fn progress_of(ts: u64, end: Option<u64>, tb: Option<TimeBase>) -> (u64, u64) {
    match tb {
        Some(b) => (millis_of(ts, b), millis_of(end.unwrap_or(0), b)),
        None => (0, 0),
    }
}

/// Computes `(position, duration)` in milliseconds for a decoded packet.
pub fn update_progress(ts: u64, end: Option<u64>, tb: Option<TimeBase>) -> (r: (u64, u64))
    requires
        tb.is_some() ==> tb.unwrap().wf(),
    ensures
        r == progress_of(ts, end, tb),
{
    match tb {
        Some(b) => {
            let e: u64 = match end {
                Some(v) => v,
                None => 0,
            };
            (ticks_to_millis(ts, b), ticks_to_millis(e, b))
        },
        None => (0, 0),
    }
}

/// The absolute target of a relative seek: `position + delta`, held at zero
/// below the start of the stream and at `u64::MAX` above.
pub open spec fn relative_target(position: u64, delta: i64) -> u64 {
    let t = position as int + delta as int;
    if t < 0 {
        0
    } else if t > u64::MAX as int {
        u64::MAX
    } else {
        t as u64
    }
}

/// Computes the target of a relative seek from the last published position.
pub fn seek_relative_target(position: u64, delta: i64) -> (r: u64)
    ensures
        r == relative_target(position, delta),
{
    if delta >= 0 {
        let d: u64 = delta as u64;
        if position > u64::MAX - d {
            u64::MAX
        } else {
            position + d
        }
    } else {
        let back: u64 = if delta == i64::MIN {
            (i64::MAX as u64) + 1
        } else {
            (-delta) as u64
        };
        if back > position {
            0
        } else {
            position - back
        }
    }
}

} // verus!
