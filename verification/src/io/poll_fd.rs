//! `struct pollfd` and its `POLL*` flags.
use vstd::prelude::*;

verus! {

#[verifier::external_type_specification]
#[verifier::external_body]
pub struct ExBorrowedFd<'fd>(io_lifetimes::BorrowedFd<'fd>);

/// `POLLIN`
pub const POLLIN: u16 = 0x1;

/// `POLLPRI`
pub const POLLPRI: u16 = 0x2;

/// `POLLOUT`
pub const POLLOUT: u16 = 0x4;

/// `POLLERR`
pub const POLLERR: u16 = 0x8;

/// `POLLHUP`
pub const POLLHUP: u16 = 0x10;

/// `POLLNVAL`
pub const POLLNVAL: u16 = 0x20;

/// `POLLRDNORM`
pub const POLLRDNORM: u16 = 0x40;

/// `POLLRDBAND`
pub const POLLRDBAND: u16 = 0x80;

/// `POLLWRNORM`
pub const POLLWRNORM: u16 = 0x100;

/// `POLLWRBAND`
pub const POLLWRBAND: u16 = 0x200;

/// `POLLRDHUP`
pub const POLLRDHUP: u16 = 0x2000;

/// The union of all the known `POLL*` flags.
pub const POLL_ALL: u16 = 0x23ff;

/// `POLL*`: a set of the known poll flags.
#[derive(Debug, Clone, Copy, Eq, PartialEq, Structural, Hash)]
pub struct PollFlags(u16);

impl PollFlags {
    /// The bits of the set.
    pub closed spec fn spec_bits(self) -> u16 {
        self.0
    }

    /// The set whose bits are `bits`, if all of them are known flags.
    pub fn from_bits(bits: u16) -> (r: Option<Self>)
        ensures
            r is Some <==> bits & !POLL_ALL == 0,
            r matches Some(f) ==> f.spec_bits() == bits,
    {
        if bits & !POLL_ALL == 0 {
            Some(Self(bits))
        } else {
            None
        }
    }

    /// The set of the known flags among `bits`.
    pub fn from_bits_truncate(bits: u16) -> (f: Self)
        ensures
            f.spec_bits() == bits & POLL_ALL,
    {
        Self(bits & POLL_ALL)
    }

    /// The bits of the set.
    pub fn bits(self) -> (r: u16)
        ensures
            r == self.spec_bits(),
    {
        self.0
    }
}

/// `struct pollfd`
#[derive(Debug)]
pub struct PollFd<'fd> {
    fd: io_lifetimes::BorrowedFd<'fd>,
    events: u16,
    revents: u16,
}

impl<'fd> PollFd<'fd> {
    /// The requested events.
    pub closed spec fn spec_events(&self) -> u16 {
        self.events
    }

    /// The ready events, as the kernel reported them.
    pub closed spec fn spec_revents(&self) -> u16 {
        self.revents
    }

    /// The file descriptor to poll.
    pub closed spec fn spec_fd(&self) -> io_lifetimes::BorrowedFd<'fd> {
        self.fd
    }

    /// Construct a new `PollFd` holding `fd` and `events`.
    pub fn from_borrowed_fd(fd: io_lifetimes::BorrowedFd<'fd>, events: PollFlags) -> (p: Self)
        ensures
            p.spec_fd() == fd,
            p.spec_events() == events.spec_bits(),
            p.spec_revents() == 0,
    {
        Self { fd, events: events.bits(), revents: 0 }
    }

    /// The file descriptor to poll.
    pub fn fd(&self) -> (r: io_lifetimes::BorrowedFd<'fd>)
        ensures
            r == self.spec_fd(),
    {
        self.fd
    }

    /// The requested events.
    pub fn events(&self) -> (r: u16)
        ensures
            r == self.spec_events(),
    {
        self.events
    }

    /// Record the ready events that the kernel reported for this entry.
    pub fn set_revents(&mut self, revents: u16)
        ensures
            final(self).spec_revents() == revents,
            final(self).spec_events() == old(self).spec_events(),
            final(self).spec_fd() == old(self).spec_fd(),
    {
        self.revents = revents;
    }

    /// Return the ready events. The kernel reports only known flags.
    pub fn revents(self) -> (f: PollFlags)
        requires
            self.spec_revents() & !POLL_ALL == 0,
        ensures
            f.spec_bits() == self.spec_revents(),
    {
        match PollFlags::from_bits(self.revents) {
            Some(f) => f,
            None => PollFlags(0),
        }
    }
}

} // verus!
