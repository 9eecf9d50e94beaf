use rustix::io::read_write::{probe_after_recv, probe_after_send, probe_start, ProbeAction, ProbeState};
use rustix::io::tty::{ttyname_step, TtynameAction, TtynameEvent, TtynameState};
use rustix::io::epoll::{Event, EventVec};
use rustix::io::tty::{ttyname_check_len, ttyname_check_mode, ttyname_check_same_file};
use rustix::io::epoll::Ref;
use rustix::io::errno;
use rustix::io::poll_fd::{POLLIN, POLLOUT, POLLRDHUP, POLL_ALL};
use rustix::io::read_write::{
    file_read_write, read_side_after_recv, write_side_after_send, ReadProbe, O_PATH, O_RDONLY,
    O_RDWR, O_WRONLY,
};
use rustix::io::{Advice, Error, PollFlags};

#[test]
fn read_probe_outcomes() {
    assert_eq!(
        read_side_after_recv(Ok(0)),
        Ok(ReadProbe { read: false, not_socket: false })
    );
    assert_eq!(
        read_side_after_recv(Ok(1)),
        Ok(ReadProbe { read: true, not_socket: false })
    );
    assert_eq!(
        read_side_after_recv(Err(Error::from_errno(errno::AGAIN))),
        Ok(ReadProbe { read: true, not_socket: false })
    );
    assert_eq!(
        read_side_after_recv(Err(Error::from_errno(errno::NOTSOCK))),
        Ok(ReadProbe { read: true, not_socket: true })
    );
    assert_eq!(
        read_side_after_recv(Err(Error::from_errno(errno::BADF))),
        Err(Error::from_errno(errno::BADF))
    );
}

#[test]
fn write_probe_outcomes() {
    assert_eq!(write_side_after_send(Ok(1)), Ok(true));
    assert_eq!(write_side_after_send(Err(Error::from_errno(errno::AGAIN))), Ok(true));
    assert_eq!(write_side_after_send(Err(Error::from_errno(errno::NOTSOCK))), Ok(true));
    assert_eq!(write_side_after_send(Err(Error::from_errno(errno::PIPE))), Ok(false));
    assert_eq!(
        write_side_after_send(Err(Error::from_errno(errno::BADF))),
        Err(Error::from_errno(errno::BADF))
    );
}

#[test]
fn poll_flags_known_bits() {
    assert_eq!(PollFlags::from_bits(POLLIN | POLLOUT).map(|f| f.bits()), Some(5));
    assert_eq!(PollFlags::from_bits(POLLRDHUP).map(|f| f.bits()), Some(0x2000));
    assert_eq!(PollFlags::from_bits(0x400), None);
    assert_eq!(PollFlags::from_bits(POLL_ALL).map(|f| f.bits()), Some(0x23ff));
    assert_eq!(PollFlags::from_bits_truncate(0xffff).bits(), 0x23ff);
}

#[test]
fn ref_gives_back_its_value() {
    let r: Ref<'_, u32> = Ref::new(17);
    assert_eq!(*r, 17);
    assert_eq!(r.consume(), 17);
}

#[test]
fn madvise_numbers() {
    assert_eq!(Advice::Normal.as_raw(), 0);
    assert_eq!(Advice::LinuxDontNeed.as_raw(), 4);
    assert_eq!(Advice::LinuxFree.as_raw(), 8);
    assert_eq!(Advice::LinuxHwPoison.as_raw(), 100);
    assert_eq!(Advice::LinuxPageOut.as_raw(), 21);
}

#[test]
fn access_modes() {
    assert_eq!(file_read_write(O_RDONLY), (true, false));
    assert_eq!(file_read_write(O_WRONLY), (false, true));
    assert_eq!(file_read_write(O_RDWR | 0o4000), (true, true));
    assert_eq!(file_read_write(O_PATH), (false, false));
    assert_eq!(file_read_write(O_PATH | O_RDWR), (false, false));
}

#[test]
fn ttyname_decisions() {
    assert_eq!(ttyname_check_mode(0o020620), Ok(()));
    assert_eq!(ttyname_check_mode(0o100644), Err(Error::from_errno(errno::NOTTY)));
    assert_eq!(ttyname_check_len(10, 64), Ok(()));
    assert_eq!(ttyname_check_len(64, 64), Err(Error::from_errno(errno::RANGE)));
    assert_eq!(ttyname_check_same_file(5, 7, 5, 7), Ok(()));
    assert_eq!(ttyname_check_same_file(5, 7, 5, 8), Err(Error::from_errno(errno::NODEV)));
    assert_eq!(ttyname_check_same_file(5, 7, 6, 7), Err(Error::from_errno(errno::NODEV)));
}

#[test]
fn read_write_probe_steps() {
    // A read-only descriptor is probed with recv only.
    let (s, a) = probe_start(Ok(O_RDONLY));
    assert_eq!(a, ProbeAction::Recv);
    let (_, a) = probe_after_recv(s, Ok(0));
    assert_eq!(a, ProbeAction::Finish(Ok((false, false))));
    // A read-write socket is probed with recv, then send.
    let (s, a) = probe_start(Ok(O_RDWR));
    assert_eq!(a, ProbeAction::Recv);
    let (s, a) = probe_after_recv(s, Err(Error::from_errno(errno::AGAIN)));
    assert_eq!(a, ProbeAction::Send);
    assert_eq!(probe_after_send(s, Err(Error::from_errno(errno::PIPE))), ProbeAction::Finish(Ok((true, false))));
    // A read-write file that is not a socket skips the send probe.
    let (s, _) = probe_start(Ok(O_RDWR));
    let (_, a) = probe_after_recv(s, Err(Error::from_errno(errno::NOTSOCK)));
    assert_eq!(a, ProbeAction::Finish(Ok((true, true))));
    // A write-only descriptor is probed with send only.
    let (s, a) = probe_start(Ok(O_WRONLY));
    assert_eq!(a, ProbeAction::Send);
    assert_eq!(probe_after_send(s, Ok(0)), ProbeAction::Finish(Ok((false, true))));
    // An O_PATH descriptor needs no probe; errors pass through.
    assert_eq!(probe_start(Ok(O_PATH)).1, ProbeAction::Finish(Ok((false, false))));
    assert_eq!(probe_start(Err(Error::from_errno(errno::BADF))).1, ProbeAction::Finish(Err(Error::from_errno(errno::BADF))));
    let st = ProbeState { read: true, write: true };
    assert_eq!(probe_after_recv(st, Err(Error::from_errno(errno::BADF))).1, ProbeAction::Finish(Err(Error::from_errno(errno::BADF))));
    assert_eq!(probe_after_send(st, Err(Error::from_errno(errno::BADF))), ProbeAction::Finish(Err(Error::from_errno(errno::BADF))));
}

#[test]
fn ttyname_steps() {
    let s0 = TtynameState { fd_dev: 0, fd_ino: 0, buf_len: 64, len: 0 };
    let (s, a) = ttyname_step(s0, TtynameEvent::FdStat(Ok((0o020620, 5, 9))));
    assert_eq!(a, TtynameAction::QueryTerminal);
    assert_eq!((s.fd_dev, s.fd_ino), (5, 9));
    let (s, a) = ttyname_step(s, TtynameEvent::Terminal(Ok(())));
    assert_eq!(a, TtynameAction::ReadLink);
    let (s, a) = ttyname_step(s, TtynameEvent::Link(Ok(10)));
    assert_eq!(a, TtynameAction::StatPath(10));
    let (_, a) = ttyname_step(s, TtynameEvent::PathStat(Ok((5, 9))));
    assert_eq!(a, TtynameAction::Finish(Ok(10)));
    let (_, a) = ttyname_step(s, TtynameEvent::PathStat(Ok((5, 8))));
    assert_eq!(a, TtynameAction::Finish(Err(Error::from_errno(errno::NODEV))));
    let (_, a) = ttyname_step(s0, TtynameEvent::FdStat(Ok((0o100644, 5, 9))));
    assert_eq!(a, TtynameAction::Finish(Err(Error::from_errno(errno::NOTTY))));
    let (_, a) = ttyname_step(s0, TtynameEvent::Link(Ok(64)));
    assert_eq!(a, TtynameAction::Finish(Err(Error::from_errno(errno::RANGE))));
    let (_, a) = ttyname_step(s0, TtynameEvent::Terminal(Err(Error::from_errno(errno::NOTTY))));
    assert_eq!(a, TtynameAction::Finish(Err(Error::from_errno(errno::NOTTY))));
}

#[test]
fn event_buffer() {
    let mut v = EventVec::with_capacity(4);
    assert!(v.capacity() >= 4);
    assert_eq!(v.len(), 0);
    v.push(Event { event_flags: 1, encoded: 7 });
    v.push(Event { event_flags: 4, encoded: 9 });
    assert_eq!(v.len(), 2);
    assert_eq!(v.get(1), Event { event_flags: 4, encoded: 9 });
    v.reserve(10);
    v.reserve_exact(3);
    v.shrink_to_fit();
    assert_eq!(v.get(0), Event { event_flags: 1, encoded: 7 });
    assert!(v.capacity() >= 2);
    v.clear();
    assert_eq!(v.len(), 0);
}
