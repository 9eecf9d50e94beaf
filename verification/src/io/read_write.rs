//! Whether a file descriptor is open for reading and for writing.
//!
//! The read side of a socket may be shut down: a `recv` with `PEEK` and
//! `DONTWAIT` for one byte then returns 0, where an open read side gives
//! data or `EWOULDBLOCK`. The write side may be shut down too: a `send`
//! with `DONTWAIT` of no bytes then fails with `EPIPE`. A descriptor that
//! is not a socket answers `ENOTSOCK`, and keeps the access its file
//! status flags give.
use crate::io::errno;
use crate::io::Error;
use vstd::prelude::*;

verus! {

/// What the `recv` probe tells of the read side.
#[derive(Clone, Copy, Debug, PartialEq, Eq, Structural)]
pub struct ReadProbe {
    /// Whether the read side is open.
    pub read: bool,
    /// Whether the descriptor turned out not to be a socket.
    pub not_socket: bool,
}

/// What the `recv` probe tells: see `read_side_after_recv`.
pub open spec fn recv_probe(recv_result: Result<usize, Error>) -> Result<ReadProbe, Error> {
    match recv_result {
        Ok(n) => Ok(ReadProbe { read: n != 0, not_socket: false }),
        Err(e) => if e.errno() == errno::AGAIN {
            Ok(ReadProbe { read: true, not_socket: false })
        } else if e.errno() == errno::NOTSOCK {
            Ok(ReadProbe { read: true, not_socket: true })
        } else {
            Err(e)
        },
    }
}

/// What the `send` probe tells: see `write_side_after_send`.
pub open spec fn send_probe(send_result: Result<usize, Error>) -> Result<bool, Error> {
    match send_result {
        Ok(_) => Ok(true),
        Err(e) => if e.errno() == errno::AGAIN || e.errno() == errno::NOTSOCK {
            Ok(true)
        } else if e.errno() == errno::PIPE {
            Ok(false)
        } else {
            Err(e)
        },
    }
}

/// Interpret the result of the `recv` probe on a descriptor whose file
/// status flags allow reading: 0 bytes mean the read side is shut down;
/// data, `EAGAIN` or `EWOULDBLOCK` mean it is open; `ENOTSOCK` means the
/// descriptor is not a socket; any other error is returned.
pub fn read_side_after_recv(recv_result: Result<usize, Error>) -> (r: Result<ReadProbe, Error>)
    ensures
        r == recv_probe(recv_result),
        recv_result matches Ok(n) ==> r == Ok::<ReadProbe, Error>(
            ReadProbe { read: n != 0, not_socket: false },
        ),
        recv_result matches Err(e) ==> r == (if e.errno() == errno::AGAIN {
            Ok(ReadProbe { read: true, not_socket: false })
        } else if e.errno() == errno::NOTSOCK {
            Ok(ReadProbe { read: true, not_socket: true })
        } else {
            Err(e)
        }),
{
    match recv_result {
        Ok(0) => Ok(ReadProbe { read: false, not_socket: false }),
        Ok(_) => Ok(ReadProbe { read: true, not_socket: false }),
        Err(err) => {
            let code = err.raw_os_error();
            // `EAGAIN` and `EWOULDBLOCK` are the same error on Linux.
            if code == errno::AGAIN as i32 || code == errno::WOULDBLOCK as i32 {
                Ok(ReadProbe { read: true, not_socket: false })
            } else if code == errno::NOTSOCK as i32 {
                Ok(ReadProbe { read: true, not_socket: true })
            } else {
                Err(err)
            }
        },
    }
}

/// Interpret the result of the `send` probe on a socket whose file status
/// flags allow writing: `EPIPE` means the write side is shut down; success,
/// `EAGAIN`, `EWOULDBLOCK` or `ENOTSOCK` mean it is open; any other error
/// is returned.
pub fn write_side_after_send(send_result: Result<usize, Error>) -> (r: Result<bool, Error>)
    ensures
        r == send_probe(send_result),
        send_result is Ok ==> r == Ok::<bool, Error>(true),
        send_result matches Err(e) ==> r == (if e.errno() == errno::AGAIN || e.errno()
            == errno::NOTSOCK {
            Ok(true)
        } else if e.errno() == errno::PIPE {
            Ok(false)
        } else {
            Err(e)
        }),
{
    match send_result {
        Ok(_) => Ok(true),
        Err(err) => {
            let code = err.raw_os_error();
            if code == errno::AGAIN as i32 || code == errno::WOULDBLOCK as i32 || code
                == errno::NOTSOCK as i32 {
                Ok(true)
            } else if code == errno::PIPE as i32 {
                Ok(false)
            } else {
                Err(err)
            }
        },
    }
}

/// `O_ACCMODE`: the access-mode bits of the file status flags.
pub const O_ACCMODE: u32 = 3;

/// `O_RDONLY`
pub const O_RDONLY: u32 = 0;

/// `O_WRONLY`
pub const O_WRONLY: u32 = 1;

/// `O_RDWR`
pub const O_RDWR: u32 = 2;

/// `O_PATH`
pub const O_PATH: u32 = 0o10000000;

/// Whether a file whose status flags are `flags` is open for reading and
/// for writing: neither for an `O_PATH` descriptor, else as its access
/// mode says. The access mode `3` is never reported.
pub fn file_read_write(flags: u32) -> (r: (bool, bool))
    requires
        flags & O_PATH == 0 ==> flags & O_ACCMODE != 3,
    ensures
        r == access_of(flags),
        flags & O_PATH != 0 ==> r == (false, false),
        flags & O_PATH == 0 ==> r == (flags & O_ACCMODE != O_WRONLY, flags & O_ACCMODE
            != O_RDONLY),
{
    if flags & O_PATH != 0 {
        return (false, false);
    }
    let mode = flags & O_ACCMODE;
    assert(mode <= 3) by (bit_vector)
        requires
            mode == flags & 3u32,
    ;
    if mode == O_RDONLY {
        (true, false)
    } else if mode == O_RDWR {
        (true, true)
    } else {
        (false, true)
    }
}

/// The access to a descriptor that its file status flags give: see
/// `file_read_write`.
pub open spec fn access_of(flags: u32) -> (bool, bool) {
    if flags & O_PATH != 0 {
        (false, false)
    } else {
        (flags & O_ACCMODE != O_WRONLY, flags & O_ACCMODE != O_RDONLY)
    }
}

/// What a read/write probe of a descriptor has found so far.
#[derive(Clone, Copy, Debug, PartialEq, Eq, Structural)]
pub struct ProbeState {
    /// Whether the descriptor is open for reading.
    pub read: bool,
    /// Whether the descriptor is open for writing.
    pub write: bool,
}

/// What a read/write probe does next.
#[derive(Clone, Copy, Debug, PartialEq, Eq)]
pub enum ProbeAction {
    /// A `recv` with `PEEK` and `DONTWAIT` of one byte.
    Recv,
    /// A `send` with `DONTWAIT` of no bytes.
    Send,
    /// The probe is over, with this answer.
    Finish(Result<(bool, bool), Error>),
}

/// The first step of the probe, once `fcntl(F_GETFL)` answered `getfl`:
/// an error ends it; else the access mode gives the state, and a readable
/// descriptor is probed with `recv`, a writable one with `send`.
pub open spec fn probe_start_spec(getfl: Result<u32, Error>) -> (ProbeState, ProbeAction) {
    match getfl {
        Err(e) => (ProbeState { read: false, write: false }, ProbeAction::Finish(Err(e))),
        Ok(flags) => {
            let (read, write) = access_of(flags);
            let state = ProbeState { read, write };
            if read {
                (state, ProbeAction::Recv)
            } else if write {
                (state, ProbeAction::Send)
            } else {
                (state, ProbeAction::Finish(Ok((read, write))))
            }
        },
    }
}

/// The step after the `recv` probe answered `recv_result`: an error ends
/// the probe; else the read side is as the probe says, and a writable
/// socket is probed with `send`.
pub open spec fn probe_after_recv_spec(state: ProbeState, recv_result: Result<usize, Error>) -> (
    ProbeState,
    ProbeAction,
) {
    match recv_probe(recv_result) {
        Err(e) => (state, ProbeAction::Finish(Err(e))),
        Ok(p) => {
            let next = ProbeState { read: p.read, write: state.write };
            if state.write && !p.not_socket {
                (next, ProbeAction::Send)
            } else {
                (next, ProbeAction::Finish(Ok((p.read, state.write))))
            }
        },
    }
}

/// The step after the `send` probe answered `send_result`: the probe ends,
/// with the write side as the probe says, or with its error.
pub open spec fn probe_after_send_spec(state: ProbeState, send_result: Result<usize, Error>) -> ProbeAction {
    match send_probe(send_result) {
        Err(e) => ProbeAction::Finish(Err(e)),
        Ok(w) => ProbeAction::Finish(Ok((state.read, w))),
    }
}

/// Start a read/write probe with the answer of `fcntl(F_GETFL)`.
pub fn probe_start(getfl: Result<u32, Error>) -> (r: (ProbeState, ProbeAction))
    requires
        getfl matches Ok(f) ==> (f & O_PATH == 0 ==> f & O_ACCMODE != 3),
    ensures
        r == probe_start_spec(getfl),
{
    match getfl {
        Err(e) => (ProbeState { read: false, write: false }, ProbeAction::Finish(Err(e))),
        Ok(flags) => {
            let (read, write) = file_read_write(flags);
            let state = ProbeState { read, write };
            if read {
                (state, ProbeAction::Recv)
            } else if write {
                (state, ProbeAction::Send)
            } else {
                (state, ProbeAction::Finish(Ok((read, write))))
            }
        },
    }
}

/// Go on with a read/write probe after the `recv` probe answered.
pub fn probe_after_recv(state: ProbeState, recv_result: Result<usize, Error>) -> (r: (
    ProbeState,
    ProbeAction,
))
    ensures
        r == probe_after_recv_spec(state, recv_result),
{
    match read_side_after_recv(recv_result) {
        Err(e) => (state, ProbeAction::Finish(Err(e))),
        Ok(p) => {
            let next = ProbeState { read: p.read, write: state.write };
            if state.write && !p.not_socket {
                (next, ProbeAction::Send)
            } else {
                (next, ProbeAction::Finish(Ok((p.read, state.write))))
            }
        },
    }
}

/// End a read/write probe after the `send` probe answered.
pub fn probe_after_send(state: ProbeState, send_result: Result<usize, Error>) -> (r: ProbeAction)
    ensures
        r == probe_after_send_spec(state, send_result),
{
    match write_side_after_send(send_result) {
        Err(e) => ProbeAction::Finish(Err(e)),
        Ok(w) => ProbeAction::Finish(Ok((state.read, w))),
    }
}

/// The write answer of a writable descriptor comes from the `send` probe
/// whatever the `recv` probe found, unless the `recv` probe found that the
/// descriptor is not a socket: after any data, an end of file, or
/// `EAGAIN`, the next step of the probe is `Send`, and the read answer is
/// whether data came.
pub proof fn lemma_writable_is_probed_with_send(state: ProbeState, recv_result: Result<usize, Error>)
    requires
        state.write,
    ensures
        recv_result matches Ok(n) ==> probe_after_recv_spec(state, recv_result) == (
            ProbeState { read: n != 0, write: true },
            ProbeAction::Send,
        ),
        recv_result matches Err(e) && e.errno() == errno::AGAIN ==> probe_after_recv_spec(
            state,
            recv_result,
        ) == (ProbeState { read: true, write: true }, ProbeAction::Send),
        recv_result matches Err(e) && e.errno() == errno::NOTSOCK ==> probe_after_recv_spec(
            state,
            recv_result,
        ).1 == ProbeAction::Finish(Ok((true, true))),
{
}

/// A socket open for reading and writing is answered by both probes: the
/// read side is open when the `recv` probe gets data (or `EAGAIN`), and
/// the write side is shut down exactly when the `send` probe fails with
/// `EPIPE`.
pub proof fn lemma_read_write_socket(n: usize, send_result: Result<usize, Error>)
    requires
        send_result matches Err(e) ==> (e.errno() == errno::AGAIN || e.errno() == errno::NOTSOCK
            || e.errno() == errno::PIPE),
    ensures
        ({
            let (s0, a0) = probe_start_spec(Ok(O_RDWR));
            let (s1, a1) = probe_after_recv_spec(s0, Ok(n));
            &&& a0 == ProbeAction::Recv
            &&& a1 == ProbeAction::Send
            &&& probe_after_send_spec(s1, send_result) == ProbeAction::Finish(
                Ok((n != 0, !(send_result matches Err(e) && e.errno() == errno::PIPE))),
            )
        }),
{
    assert(O_RDWR & O_PATH == 0) by (bit_vector);
    assert(O_RDWR & O_ACCMODE == 2) by (bit_vector);
}

} // verus!
