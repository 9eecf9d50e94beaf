//! Clocks and time values.
use crate::io::Error;
use vstd::prelude::*;

verus! {

/// `struct timespec`
#[derive(Clone, Copy, Debug, PartialEq, Eq, Structural)]
pub struct Timespec {
    /// seconds
    pub tv_sec: i64,
    /// nanoseconds
    pub tv_nsec: i64,
}

/// `CLOCK_*` constants for use with `clock_gettime`.
///
/// These clocks are always supported at runtime, so `clock_gettime` never
/// has to fail with `INVAL` due to an unsupported clock.
#[derive(Debug, Copy, Clone, Eq, PartialEq, Structural, Hash)]
pub enum ClockId {
    /// `CLOCK_REALTIME`
    Realtime,
    /// `CLOCK_MONOTONIC`
    Monotonic,
    /// `CLOCK_PROCESS_CPUTIME_ID`
    ProcessCPUTime,
    /// `CLOCK_THREAD_CPUTIME_ID`
    ThreadCPUTime,
    /// `CLOCK_REALTIME_COARSE`
    RealtimeCoarse,
    /// `CLOCK_MONOTONIC_COARSE`
    MonotonicCoarse,
    /// `CLOCK_MONOTONIC_RAW`
    MonotonicRaw,
}

/// The Linux `clockid_t` number of each clock.
pub open spec fn clock_number(id: ClockId) -> u32 {
    match id {
        ClockId::Realtime => 0,
        ClockId::Monotonic => 1,
        ClockId::ProcessCPUTime => 2,
        ClockId::ThreadCPUTime => 3,
        ClockId::MonotonicRaw => 4,
        ClockId::RealtimeCoarse => 5,
        ClockId::MonotonicCoarse => 6,
    }
}

impl ClockId {
    /// The Linux `clockid_t` number of this clock.
    pub fn as_raw(self) -> (r: u32)
        ensures
            r == clock_number(self),
    {
        match self {
            ClockId::Realtime => 0,
            ClockId::Monotonic => 1,
            ClockId::ProcessCPUTime => 2,
            ClockId::ThreadCPUTime => 3,
            ClockId::MonotonicRaw => 4,
            ClockId::RealtimeCoarse => 5,
            ClockId::MonotonicCoarse => 6,
        }
    }
}

/// `CLOCK_*` constants for use with `clock_gettime_dynamic`.
///
/// These clocks may be unsupported at runtime, depending on the OS version,
/// and `clock_gettime_dynamic` may fail with `INVAL`.
#[derive(Debug, Copy, Clone, Eq, PartialEq, Structural)]
pub enum DynamicClockId {
    /// `ClockId` values that are always supported at runtime.
    Known(ClockId),
    /// Linux dynamic clocks, named by the raw file descriptor of a clock
    /// device.
    Dynamic(i32),
    /// `CLOCK_REALTIME_ALARM`, available on Linux >= 3.0
    RealtimeAlarm,
    /// `CLOCK_TAI`, available on Linux >= 3.10
    Tai,
    /// `CLOCK_BOOTTIME`, available on Linux >= 2.6.39
    Boottime,
    /// `CLOCK_BOOTTIME_ALARM`, available on Linux >= 2.6.39
    BoottimeAlarm,
}

/// `CLOCKFD`: the low bits that mark a clock id as naming a clock device.
pub const CLOCKFD: i32 = 3;

/// The `clockid_t` of a `DynamicClockId`. A clock device `fd` is named by
/// `FD_TO_CLOCKID(fd)`: the complement of `fd`, shifted left by three bits,
/// with `CLOCKFD` in the low bits.
pub open spec fn dynamic_clock_number(id: DynamicClockId) -> int {
    match id {
        DynamicClockId::Known(k) => clock_number(k) as int,
        DynamicClockId::Dynamic(fd) => -8 * fd - 5,
        DynamicClockId::RealtimeAlarm => 8,
        DynamicClockId::Tai => 11,
        DynamicClockId::Boottime => 7,
        DynamicClockId::BoottimeAlarm => 9,
    }
}

/// The `clockid_t` that `clock_gettime` is called with for `which_clock`.
/// For a clock device, the number is computed in 32-bit arithmetic, so it
/// wraps for descriptors of `2^28` and more.
pub fn dynamic_clock_id(which_clock: DynamicClockId) -> (id: i32)
    ensures
        id == dynamic_clock_number(which_clock) as i32,
{
    match which_clock {
        DynamicClockId::Known(id) => id.as_raw() as i32,
        DynamicClockId::Dynamic(fd) => {
            // See `FD_TO_CLOCKID` in Linux's `clock_gettime` documentation.
            let id = ((!fd) << 3u32) | CLOCKFD;
            assert(id == (-8 * fd - 5) as i32) by (bit_vector)
                requires
                    id == ((!fd) << 3u32) | 3i32,
            ;
            id
        },
        DynamicClockId::RealtimeAlarm => 8,
        DynamicClockId::Tai => 11,
        DynamicClockId::Boottime => 7,
        DynamicClockId::BoottimeAlarm => 9,
    }
}

/// The file descriptor that a dynamic clock id names: `CLOCKID_TO_FD`.
pub open spec fn clock_id_to_fd(id: i32) -> i32 {
    !(id >> 3u32)
}

/// A clock device's file descriptor can be read back from its clock id.
pub proof fn lemma_dynamic_clock_fd_roundtrip(fd: i32)
    requires
        0 <= fd < 0x1000_0000,
    ensures
        clock_id_to_fd((-8 * fd - 5) as i32) == fd,
        ((-8 * fd - 5) as i32) & 7 == 3,
{
    let id = (-8 * fd - 5) as i32;
    assert(!(id >> 3u32) == fd && id & 7 == 3) by (bit_vector)
        requires
            0 <= fd < 0x1000_0000,
            id == -8 * fd - 5,
    ;
}

/// What the vDSO `clock_gettime` function's return value `r0` asks for.
#[derive(Debug, Copy, Clone, Eq, PartialEq, Structural)]
pub enum VdsoClockOutcome {
    /// The time was written.
    Done,
    /// The clock is not supported: fail with `INVAL`.
    Invalid,
    /// Ask the kernel with a system call instead.
    Fallback,
}

/// Decide what to do after the vDSO's `clock_gettime` returned `r0`: `0` is
/// success, `-EINVAL` means the clock is unsupported, anything else calls
/// for the system call.
pub fn vdso_clock_outcome(r0: i32) -> (o: VdsoClockOutcome)
    ensures
        r0 == 0 ==> o == VdsoClockOutcome::Done,
        r0 == -22 ==> o == VdsoClockOutcome::Invalid,
        r0 != 0 && r0 != -22 ==> o == VdsoClockOutcome::Fallback,
{
    if r0 == 0 {
        VdsoClockOutcome::Done
    } else if r0 == -22 {
        VdsoClockOutcome::Invalid
    } else {
        VdsoClockOutcome::Fallback
    }
}

/// The result of a relative sleep.
#[derive(Debug, Copy, Clone, Eq, PartialEq, Structural)]
pub enum NanosleepRelativeResult {
    /// The sleep completed normally.
    Complete,
    /// The sleep was interrupted, the remaining time is returned.
    Interrupted(Timespec),
    /// An invalid time value was provided.
    Failed(Error),
}

/// Interpret the outcome of a `nanosleep` or `clock_nanosleep` system call:
/// success, an interruption by a signal (`EINTR`), with the time that was
/// left, or another error.
pub fn nanosleep_result(ret: Result<(), Error>, rem: Timespec) -> (r: NanosleepRelativeResult)
    ensures
        ret is Ok ==> r == NanosleepRelativeResult::Complete,
        ret matches Err(e) ==> r == (if e.errno() == 4 {
            NanosleepRelativeResult::Interrupted(rem)
        } else {
            NanosleepRelativeResult::Failed(e)
        }),
{
    match ret {
        Ok(()) => NanosleepRelativeResult::Complete,
        Err(e) => if e.raw_os_error() == crate::io::errno::INTR as i32 {
            NanosleepRelativeResult::Interrupted(rem)
        } else {
            NanosleepRelativeResult::Failed(e)
        },
    }
}

} // verus!
