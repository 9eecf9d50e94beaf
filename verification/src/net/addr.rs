//! IPv4, IPv6, and Unix-domain socket addresses.
use crate::io::errno;
use crate::io::Error;
use vstd::prelude::*;

verus! {

/// The size of the `sun_path` field of `struct sockaddr_un`.
pub const SUN_PATH_LEN: usize = 108;

/// An IPv4 socket address: four address octets, in network order, and a
/// port number.
#[derive(Clone, Copy, Debug, PartialEq, Eq, Hash)]
pub struct SocketAddrV4 {
    /// The address octets.
    pub ip: [u8; 4],
    /// The port number.
    pub port: u16,
}

/// An IPv6 socket address: sixteen address octets, in network order, a port
/// number, a flow label and a scope id.
#[derive(Clone, Copy, Debug, PartialEq, Eq, Hash)]
pub struct SocketAddrV6 {
    /// The address octets.
    pub ip: [u8; 16],
    /// The port number.
    pub port: u16,
    /// The flow label.
    pub flowinfo: u32,
    /// The scope id.
    pub scope_id: u32,
}

/// `struct sockaddr_un`: a Unix-domain socket address, holding a path
/// without NUL bytes that fits, with its terminating NUL, in `sun_path`.
#[derive(Debug)]
pub struct SocketAddrUnix {
    path: Vec<u8>,
}

/// Whether `path` may name a Unix-domain socket: it holds no NUL byte and
/// fits, with a terminating NUL, in `sun_path`.
pub open spec fn valid_unix_path(path: Seq<u8>) -> bool {
    &&& path.len() + 1 <= SUN_PATH_LEN
    &&& forall|i: int| 0 <= i < path.len() ==> path[i] != 0
}

impl SocketAddrUnix {
    #[verifier::type_invariant]
    spec fn path_is_valid(self) -> bool {
        valid_unix_path(self.path@)
    }

    /// The path bytes, without the terminating NUL.
    pub closed spec fn path_bytes(&self) -> Seq<u8> {
        self.path@
    }

    /// Construct a new Unix-domain address from a filesystem path.
    ///
    /// A path holding a NUL byte is refused with `INVAL`, as it cannot be
    /// made into a C string; a path that does not fit in `sun_path` with
    /// its terminating NUL is refused with `NAMETOOLONG`.
    pub fn new(path: &[u8]) -> (r: Result<Self, Error>)
        ensures
            (exists|i: int| 0 <= i < path@.len() && path@[i] == 0) ==> (r matches Err(e)
                && e.errno() == errno::INVAL),
            (forall|i: int| 0 <= i < path@.len() ==> path@[i] != 0) && path@.len() + 1
                > SUN_PATH_LEN ==> (r matches Err(e) && e.errno() == errno::NAMETOOLONG),
            valid_unix_path(path@) ==> (r matches Ok(a) && a.path_bytes() == path@),
    {
        let mut owned: Vec<u8> = Vec::new();
        let mut i: usize = 0;
        while i < path.len()
            invariant
                i <= path@.len(),
                owned@ == path@.subrange(0, i as int),
                forall|j: int| 0 <= j < i ==> path@[j] != 0,
            decreases path.len() - i,
        {
            if path[i] == 0 {
                return Err(Error::from_errno(errno::INVAL));
            }
            owned.push(path[i]);
            i = i + 1;
        }
        assert(owned@ == path@);
        Self::_new(owned)
    }

    fn _new(path: Vec<u8>) -> (r: Result<Self, Error>)
        requires
            forall|i: int| 0 <= i < path@.len() ==> path@[i] != 0,
        ensures
            path@.len() + 1 > SUN_PATH_LEN ==> (r matches Err(e) && e.errno()
                == errno::NAMETOOLONG),
            path@.len() + 1 <= SUN_PATH_LEN ==> (r matches Ok(a) && a.path_bytes() == path@),
    {
        if path.len() >= SUN_PATH_LEN {
            return Err(Error::from_errno(errno::NAMETOOLONG));
        }
        Ok(Self { path })
    }

    /// The address with the given path, which is known to be valid.
    pub(crate) fn from_valid_path(path: Vec<u8>) -> (a: Self)
        requires
            valid_unix_path(path@),
        ensures
            a.path_bytes() == path@,
    {
        Self { path }
    }

    /// Returns a reference to the contained path, without its terminating
    /// NUL.
    pub fn path(&self) -> (p: &[u8])
        ensures
            p@ == self.path_bytes(),
            valid_unix_path(p@),
    {
        proof {
            use_type_invariant(self);
        }
        self.path.as_slice()
    }
}

/// A socket address of any of the supported families.
#[derive(Debug)]
pub enum SocketAddrAny {
    /// An IPv4 address.
    V4(SocketAddrV4),
    /// An IPv6 address.
    V6(SocketAddrV6),
    /// A Unix-domain address.
    Unix(SocketAddrUnix),
}

/// `struct in_addr`
#[derive(Clone, Copy, Debug, PartialEq, Eq, Structural)]
pub struct InAddr {
    /// The address, as the 32-bit value that its four octets make in memory.
    pub s_addr: u32,
}

/// `struct in6_addr`
#[derive(Clone, Copy, Debug, PartialEq, Eq)]
pub struct In6Addr {
    /// The address octets.
    pub s6_addr: [u8; 16],
}

/// The `s_addr` field of an `in_addr`.
pub fn in_addr_s_addr(addr: InAddr) -> (r: u32)
    ensures
        r == addr.s_addr,
{
    addr.s_addr
}

/// An `in_addr` with the given `s_addr` field.
pub fn in_addr_new(s_addr: u32) -> (r: InAddr)
    ensures
        r.s_addr == s_addr,
{
    InAddr { s_addr }
}

/// The octets of an `in6_addr`.
pub fn in6_addr_s6_addr(addr: In6Addr) -> (r: [u8; 16])
    ensures
        r == addr.s6_addr,
{
    addr.s6_addr
}

/// An `in6_addr` with the given octets.
pub fn in6_addr_new(s6_addr: [u8; 16]) -> (r: In6Addr)
    ensures
        r.s6_addr == s6_addr,
{
    In6Addr { s6_addr }
}

/// `struct sockaddr_in6`
#[allow(non_camel_case_types)]
#[derive(Clone, Copy, Debug, PartialEq, Eq)]
pub struct sockaddr_in6 {
    /// `AF_INET6`
    pub sin6_family: u16,
    /// The port number, in network order.
    pub sin6_port: u16,
    /// The flow label.
    pub sin6_flowinfo: u32,
    /// The address.
    pub sin6_addr: In6Addr,
    /// The scope id.
    pub sin6_scope_id: u32,
}

/// The `sin6_scope_id` field of a `sockaddr_in6`.
pub fn sockaddr_in6_sin6_scope_id(addr: &sockaddr_in6) -> (r: u32)
    ensures
        r == addr.sin6_scope_id,
{
    addr.sin6_scope_id
}

/// A `sockaddr_in6` with the given fields.
pub fn sockaddr_in6_new(
    sin6_family: u16,
    sin6_port: u16,
    sin6_flowinfo: u32,
    sin6_addr: In6Addr,
    sin6_scope_id: u32,
) -> (r: sockaddr_in6)
    ensures
        r == (sockaddr_in6 { sin6_family, sin6_port, sin6_flowinfo, sin6_addr, sin6_scope_id }),
{
    sockaddr_in6 { sin6_family, sin6_port, sin6_flowinfo, sin6_addr, sin6_scope_id }
}

} // verus!
