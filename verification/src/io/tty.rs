//! The decisions of `ttyname`: which answers of the kernel show that a
//! descriptor is not a terminal, or that its name cannot be given.
use crate::fs::types::{S_IFCHR, S_IFMT};
use crate::io::errno;
use crate::io::Error;
use vstd::prelude::*;

verus! {

/// A terminal is a character device: any other file type of `st_mode` is
/// refused with `NOTTY`.
pub fn ttyname_check_mode(st_mode: u32) -> (r: Result<(), Error>)
    ensures
        st_mode & S_IFMT == S_IFCHR ==> r is Ok,
        st_mode & S_IFMT != S_IFCHR ==> (r matches Err(e) && e.errno() == errno::NOTTY),
{
    if st_mode & S_IFMT != S_IFCHR {
        return Err(Error::from_errno(errno::NOTTY));
    }
    Ok(())
}

/// A link read into a buffer of `buf_len` bytes that fills it may have been
/// cut short, and leaves no room for a NUL: it is refused with `RANGE`.
pub fn ttyname_check_len(read_len: usize, buf_len: usize) -> (r: Result<(), Error>)
    ensures
        read_len != buf_len ==> r is Ok,
        read_len == buf_len ==> (r matches Err(e) && e.errno() == errno::RANGE),
{
    if read_len == buf_len {
        return Err(Error::from_errno(errno::RANGE));
    }
    Ok(())
}

/// The path that was read must name the file that the descriptor refers
/// to: the same device and inode, else `NODEV`.
pub fn ttyname_check_same_file(fd_dev: u64, fd_ino: u64, path_dev: u64, path_ino: u64) -> (r:
    Result<(), Error>)
    ensures
        fd_dev == path_dev && fd_ino == path_ino ==> r is Ok,
        !(fd_dev == path_dev && fd_ino == path_ino) ==> (r matches Err(e) && e.errno()
            == errno::NODEV),
{
    if path_dev != fd_dev || path_ino != fd_ino {
        return Err(Error::from_errno(errno::NODEV));
    }
    Ok(())
}

/// What `ttyname` has learnt so far: the device and inode of the
/// descriptor, the size of the caller's buffer, and the length of the name
/// read into it.
#[derive(Clone, Copy, Debug, PartialEq, Eq, Structural)]
pub struct TtynameState {
    /// The device of the file that the descriptor refers to.
    pub fd_dev: u64,
    /// The inode of that file.
    pub fd_ino: u64,
    /// The size of the buffer for the name.
    pub buf_len: usize,
    /// The length of the name read into it.
    pub len: usize,
}

/// An answer of the kernel during `ttyname`.
#[derive(Clone, Copy, Debug, PartialEq, Eq)]
pub enum TtynameEvent {
    /// `fstat` of the descriptor: its mode, device and inode.
    FdStat(Result<(u32, u64, u64), Error>),
    /// The terminal query (`TIOCGWINSZ`) on the descriptor.
    Terminal(Result<(), Error>),
    /// Reading the link `/proc/self/fd/<fd>` into the buffer: its length.
    Link(Result<usize, Error>),
    /// `stat` of the path that was read: its device and inode.
    PathStat(Result<(u64, u64), Error>),
}

/// What `ttyname` does next.
#[derive(Clone, Copy, Debug, PartialEq, Eq)]
pub enum TtynameAction {
    /// Ask whether the descriptor is a terminal.
    QueryTerminal,
    /// Read the link `/proc/self/fd/<fd>` into the buffer.
    ReadLink,
    /// NUL-terminate the name of this length in the buffer, and `stat` it.
    StatPath(usize),
    /// `ttyname` is over, with this answer: the length of the name.
    Finish(Result<usize, Error>),
}

/// Take one answer of the kernel and say what `ttyname` does next. Each
/// failed call ends it with its error; a descriptor that is not a character
/// device is refused with `NOTTY`, a name that fills the buffer with
/// `RANGE`, and a name of another file with `NODEV`.
pub fn ttyname_step(state: TtynameState, event: TtynameEvent) -> (r: (TtynameState, TtynameAction))
    ensures
        event matches TtynameEvent::FdStat(Err(e)) ==> r.1 == TtynameAction::Finish(Err(e)),
        event matches TtynameEvent::FdStat(Ok((mode, dev, ino))) ==> (if mode & S_IFMT == S_IFCHR {
            r == (TtynameState { fd_dev: dev, fd_ino: ino, ..state }, TtynameAction::QueryTerminal)
        } else {
            r.1 matches TtynameAction::Finish(Err(e)) && e.errno() == errno::NOTTY
        }),
        event matches TtynameEvent::Terminal(Err(e)) ==> r.1 == TtynameAction::Finish(Err(e)),
        event matches TtynameEvent::Terminal(Ok(())) ==> r == (state, TtynameAction::ReadLink),
        event matches TtynameEvent::Link(Err(e)) ==> r.1 == TtynameAction::Finish(Err(e)),
        event matches TtynameEvent::Link(Ok(n)) ==> (if n == state.buf_len {
            r.1 matches TtynameAction::Finish(Err(e)) && e.errno() == errno::RANGE
        } else {
            r == (TtynameState { len: n, ..state }, TtynameAction::StatPath(n))
        }),
        event matches TtynameEvent::PathStat(Err(e)) ==> r.1 == TtynameAction::Finish(Err(e)),
        event matches TtynameEvent::PathStat(Ok((dev, ino))) ==> (if dev == state.fd_dev && ino
            == state.fd_ino {
            r.1 == TtynameAction::Finish(Ok(state.len))
        } else {
            r.1 matches TtynameAction::Finish(Err(e)) && e.errno() == errno::NODEV
        }),
{
    match event {
        TtynameEvent::FdStat(Err(e)) => (state, TtynameAction::Finish(Err(e))),
        TtynameEvent::FdStat(Ok((mode, dev, ino))) => match ttyname_check_mode(mode) {
            Err(e) => (state, TtynameAction::Finish(Err(e))),
            Ok(()) => (
                TtynameState { fd_dev: dev, fd_ino: ino, ..state },
                TtynameAction::QueryTerminal,
            ),
        },
        TtynameEvent::Terminal(Err(e)) => (state, TtynameAction::Finish(Err(e))),
        TtynameEvent::Terminal(Ok(())) => (state, TtynameAction::ReadLink),
        TtynameEvent::Link(Err(e)) => (state, TtynameAction::Finish(Err(e))),
        TtynameEvent::Link(Ok(n)) => match ttyname_check_len(n, state.buf_len) {
            Err(e) => (state, TtynameAction::Finish(Err(e))),
            Ok(()) => (TtynameState { len: n, ..state }, TtynameAction::StatPath(n)),
        },
        TtynameEvent::PathStat(Err(e)) => (state, TtynameAction::Finish(Err(e))),
        TtynameEvent::PathStat(Ok((dev, ino))) => match ttyname_check_same_file(
            state.fd_dev,
            state.fd_ino,
            dev,
            ino,
        ) {
            Err(e) => (state, TtynameAction::Finish(Err(e))),
            Ok(()) => (state, TtynameAction::Finish(Ok(state.len))),
        },
    }
}

} // verus!
