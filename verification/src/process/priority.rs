//! Resource limits and scheduling priorities.
use crate::io::error::{errno_of_return, Error};
use crate::reg::{RetReg, R0};
use vstd::prelude::*;

verus! {

/// `RLIM_INFINITY`: the limit value that means "no limit".
pub const RLIM_INFINITY: u64 = 0xffff_ffff_ffff_ffff;

/// A resource limit: the soft and the hard limit, `None` meaning no limit.
#[derive(Clone, Copy, Debug, PartialEq, Eq, Structural)]
pub struct Rlimit {
    /// Current effective, "soft", limit.
    pub current: Option<u64>,
    /// Maximum, "hard", value that `current` may be dynamically increased to.
    pub maximum: Option<u64>,
}

/// A raw limit value as an optional limit: `RLIM_INFINITY` is no limit.
pub open spec fn limit_of(raw: u64) -> Option<u64> {
    if raw == RLIM_INFINITY {
        None
    } else {
        Some(raw)
    }
}

/// The resource limit that `prlimit64` reported as `rlim_cur` and
/// `rlim_max`.
pub fn rlimit_from_raw(rlim_cur: u64, rlim_max: u64) -> (r: Rlimit)
    ensures
        r.current == limit_of(rlim_cur),
        r.maximum == limit_of(rlim_max),
{
    let current = if rlim_cur == RLIM_INFINITY {
        None
    } else {
        Some(rlim_cur)
    };
    let maximum = if rlim_max == RLIM_INFINITY {
        None
    } else {
        Some(rlim_max)
    };
    Rlimit { current, maximum }
}

/// The raw limit value of an optional limit, as `prlimit64` takes it.
pub open spec fn raw_of_limit(l: Option<u64>) -> u64 {
    match l {
        Some(v) => v,
        None => RLIM_INFINITY,
    }
}

/// A raw limit read back from the kernel gives the raw value again.
pub proof fn lemma_rlimit_raw_roundtrip(raw: u64)
    ensures
        raw_of_limit(limit_of(raw)) == raw,
{
}

/// The priority that `getpriority` reports: the kernel returns `20 - nice`,
/// in `1..=40`, so that no value is negative; the priority is the nice
/// value. A successful return must be a `c_int` that can be subtracted
/// from 20.
pub fn priority_from_raw(raw: RetReg<R0>) -> (r: Result<i32, Error>)
    requires
        !raw.is_error() ==> (raw.bits() as i32) as usize == raw.bits() && 20 - raw.bits() as i32
            <= i32::MAX,
    ensures
        r is Err <==> raw.is_error(),
        r matches Err(e) ==> e.errno() == errno_of_return(raw.bits()),
        r matches Ok(p) ==> p == 20 - raw.bits() as i32,
{
    let ghost bits = raw.bits();
    match crate::conv::ret_c_int(raw) {
        Ok(v) => Ok(20 - v),
        Err(e) => Err(e),
    }
}

/// Whether `nice(inc)` adds `inc` to the current priority: when `inc` lies
/// in `-40..40`; a larger change sets the priority outright.
pub fn nice_uses_current(inc: i32) -> (r: bool)
    ensures
        r == (-40 < inc < 40),
{
    inc > -40 && inc < 40
}

/// `x` clamped to `lo..=hi`.
pub open spec fn clamp(x: int, lo: int, hi: int) -> int {
    if x < lo {
        lo
    } else if x > hi {
        hi
    } else {
        x
    }
}

/// The priority that `nice(inc)` sets: `inc` added to the current
/// priority `current` when `inc` lies in `-40..40`, `inc` itself
/// otherwise, clamped to the valid priorities `-20..=19`.
pub fn nice_priority(inc: i32, current: i32) -> (p: i32)
    requires
        -40 < inc < 40 ==> i32::MIN <= inc + current <= i32::MAX,
    ensures
        p == clamp(if -40 < inc < 40 {
            inc + current
        } else {
            inc as int
        }, -20, 19),
        -20 <= p <= 19,
{
    let priority = if nice_uses_current(inc) {
        inc + current
    } else {
        inc
    };
    if priority < -20 {
        -20
    } else if priority > 19 {
        19
    } else {
        priority
    }
}

} // verus!
