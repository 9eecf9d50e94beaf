use rustix::io::{errno, Error};
use rustix::time::{
    dynamic_clock_id, nanosleep_result, vdso_clock_outcome, ClockId, DynamicClockId,
    NanosleepRelativeResult, Timespec, VdsoClockOutcome,
};

#[test]
fn clock_numbers() {
    assert_eq!(ClockId::Realtime.as_raw(), 0);
    assert_eq!(ClockId::Monotonic.as_raw(), 1);
    assert_eq!(ClockId::ProcessCPUTime.as_raw(), 2);
    assert_eq!(ClockId::ThreadCPUTime.as_raw(), 3);
    assert_eq!(ClockId::MonotonicRaw.as_raw(), 4);
    assert_eq!(ClockId::RealtimeCoarse.as_raw(), 5);
    assert_eq!(ClockId::MonotonicCoarse.as_raw(), 6);
}

#[test]
fn dynamic_clock_numbers() {
    assert_eq!(dynamic_clock_id(DynamicClockId::Known(ClockId::Monotonic)), 1);
    assert_eq!(dynamic_clock_id(DynamicClockId::RealtimeAlarm), 8);
    assert_eq!(dynamic_clock_id(DynamicClockId::Tai), 11);
    assert_eq!(dynamic_clock_id(DynamicClockId::Boottime), 7);
    assert_eq!(dynamic_clock_id(DynamicClockId::BoottimeAlarm), 9);
    // FD_TO_CLOCKID(fd) == (~fd << 3) | 3.
    assert_eq!(dynamic_clock_id(DynamicClockId::Dynamic(0)), -5);
    assert_eq!(dynamic_clock_id(DynamicClockId::Dynamic(3)), -29);
    let id = dynamic_clock_id(DynamicClockId::Dynamic(1000));
    assert_eq!(id & 7, 3);
    assert_eq!(!(id >> 3), 1000);
}

#[test]
fn vdso_clock_outcomes() {
    assert_eq!(vdso_clock_outcome(0), VdsoClockOutcome::Done);
    assert_eq!(vdso_clock_outcome(-22), VdsoClockOutcome::Invalid);
    assert_eq!(vdso_clock_outcome(-38), VdsoClockOutcome::Fallback);
    assert_eq!(vdso_clock_outcome(1), VdsoClockOutcome::Fallback);
}

#[test]
fn nanosleep_outcomes() {
    let rem = Timespec { tv_sec: 1, tv_nsec: 5 };
    assert_eq!(nanosleep_result(Ok(()), rem), NanosleepRelativeResult::Complete);
    assert_eq!(
        nanosleep_result(Err(Error::from_errno(errno::INTR)), rem),
        NanosleepRelativeResult::Interrupted(rem)
    );
    assert_eq!(
        nanosleep_result(Err(Error::from_errno(errno::INVAL)), rem),
        NanosleepRelativeResult::Failed(Error::from_errno(errno::INVAL))
    );
}
