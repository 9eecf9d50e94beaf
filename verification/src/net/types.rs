//! Socket types and address families.
use vstd::prelude::*;

verus! {

/// `SOCK_STREAM`
pub const SOCK_STREAM: u32 = 1;

/// `SOCK_DGRAM`
pub const SOCK_DGRAM: u32 = 2;

/// `SOCK_RAW`
pub const SOCK_RAW: u32 = 3;

/// `SOCK_RDM`
pub const SOCK_RDM: u32 = 4;

/// `SOCK_SEQPACKET`
pub const SOCK_SEQPACKET: u32 = 5;

/// `SOCK_*` constants for `socket`.
#[derive(Debug, Clone, Copy, Eq, PartialEq, Structural, Hash)]
pub struct SocketType(u32);

impl SocketType {
    /// The raw `SOCK_*` value.
    pub closed spec fn raw(self) -> u32 {
        self.0
    }

    /// The socket type with the raw `SOCK_*` value `raw`.
    pub fn from_raw(raw: u32) -> (t: Self)
        ensures
            t.raw() == raw,
    {
        Self(raw)
    }

    /// The raw `SOCK_*` value.
    pub fn as_raw(self) -> (r: u32)
        ensures
            r == self.raw(),
    {
        self.0
    }
}

/// `AF_INET`
pub const AF_INET: u16 = 2;

/// `AF_INET6`
pub const AF_INET6: u16 = 10;

/// `AF_NETLINK`
pub const AF_NETLINK: u16 = 16;

/// `AF_UNIX`, aka `AF_LOCAL`
pub const AF_UNIX: u16 = 1;

/// `AF_*` constants.
#[derive(Debug, Clone, Copy, Eq, PartialEq, Structural, Hash)]
pub struct AddressFamily(u16);

impl AddressFamily {
    /// The raw `AF_*` value.
    pub closed spec fn raw(self) -> u16 {
        self.0
    }

    /// The address family with the raw `AF_*` value `raw`.
    pub fn from_raw(raw: u16) -> (f: Self)
        ensures
            f.raw() == raw,
    {
        Self(raw)
    }

    /// The raw `AF_*` value.
    pub fn as_raw(self) -> (r: u16)
        ensures
            r == self.raw(),
    {
        self.0
    }
}


/// `IPPROTO_*`
#[derive(Debug, Clone, Copy, Eq, PartialEq, Structural, Hash)]
#[non_exhaustive]
pub enum Protocol {
    /// `IPPROTO_IP`
    Ip,
    /// `IPPROTO_ICMP`
    Icmp,
    /// `IPPROTO_IGMP`
    Igmp,
    /// `IPPROTO_IPIP`
    Ipip,
    /// `IPPROTO_TCP`
    Tcp,
    /// `IPPROTO_EGP`
    Egp,
    /// `IPPROTO_PUP`
    Pup,
    /// `IPPROTO_UDP`
    Udp,
    /// `IPPROTO_IDP`
    Idp,
    /// `IPPROTO_TP`
    Tp,
    /// `IPPROTO_DCCP`
    Dccp,
    /// `IPPROTO_IPV6`
    Ipv6,
    /// `IPPROTO_RSVP`
    Rsvp,
    /// `IPPROTO_GRE`
    Gre,
    /// `IPPROTO_ESP`
    Esp,
    /// `IPPROTO_AH`
    Ah,
    /// `IPPROTO_MTP`
    Mtp,
    /// `IPPROTO_BEETPH`
    Beetph,
    /// `IPPROTO_ENCAP`
    Encap,
    /// `IPPROTO_PIM`
    Pim,
    /// `IPPROTO_COMP`
    Comp,
    /// `IPPROTO_SCTP`
    Sctp,
    /// `IPPROTO_UDPLITE`
    Udplite,
    /// `IPPROTO_MPLS`
    Mpls,
    /// `IPPROTO_ETHERNET`
    Ethernet,
    /// `IPPROTO_RAW`
    Raw,
    /// `IPPROTO_MPTCP`
    Mptcp,
    /// `IPPROTO_FRAGMENT`
    Fragment,
    /// `IPPROTO_ICMPV6`
    Icmpv6,
    /// `IPPROTO_MH`
    Mh,
    /// `IPPROTO_ROUTING`
    Routing,
}

/// The `IPPROTO_*` number of a protocol.
pub open spec fn protocol_number(p: Protocol) -> u32 {
    match p {
        Protocol::Ip => 0,
        Protocol::Icmp => 1,
        Protocol::Igmp => 2,
        Protocol::Ipip => 4,
        Protocol::Tcp => 6,
        Protocol::Egp => 8,
        Protocol::Pup => 12,
        Protocol::Udp => 17,
        Protocol::Idp => 22,
        Protocol::Tp => 29,
        Protocol::Dccp => 33,
        Protocol::Ipv6 => 41,
        Protocol::Rsvp => 46,
        Protocol::Gre => 47,
        Protocol::Esp => 50,
        Protocol::Ah => 51,
        Protocol::Mtp => 92,
        Protocol::Beetph => 94,
        Protocol::Encap => 98,
        Protocol::Pim => 103,
        Protocol::Comp => 108,
        Protocol::Sctp => 132,
        Protocol::Udplite => 136,
        Protocol::Mpls => 137,
        Protocol::Ethernet => 143,
        Protocol::Raw => 255,
        Protocol::Mptcp => 262,
        Protocol::Fragment => 44,
        Protocol::Icmpv6 => 58,
        Protocol::Mh => 135,
        Protocol::Routing => 43,
    }
}

impl Protocol {
    /// The raw `IPPROTO_*` value.
    pub fn as_raw(self) -> (r: u32)
        ensures
            r == protocol_number(self),
    {
        match self {
            Protocol::Ip => 0,
            Protocol::Icmp => 1,
            Protocol::Igmp => 2,
            Protocol::Ipip => 4,
            Protocol::Tcp => 6,
            Protocol::Egp => 8,
            Protocol::Pup => 12,
            Protocol::Udp => 17,
            Protocol::Idp => 22,
            Protocol::Tp => 29,
            Protocol::Dccp => 33,
            Protocol::Ipv6 => 41,
            Protocol::Rsvp => 46,
            Protocol::Gre => 47,
            Protocol::Esp => 50,
            Protocol::Ah => 51,
            Protocol::Mtp => 92,
            Protocol::Beetph => 94,
            Protocol::Encap => 98,
            Protocol::Pim => 103,
            Protocol::Comp => 108,
            Protocol::Sctp => 132,
            Protocol::Udplite => 136,
            Protocol::Mpls => 137,
            Protocol::Ethernet => 143,
            Protocol::Raw => 255,
            Protocol::Mptcp => 262,
            Protocol::Fragment => 44,
            Protocol::Icmpv6 => 58,
            Protocol::Mh => 135,
            Protocol::Routing => 43,
        }
    }
}

/// `SHUT_*` constants for `shutdown`.
#[derive(Debug, Clone, Copy, Eq, PartialEq, Structural, Hash)]
pub enum Shutdown {
    /// `SHUT_RD`
    Read,
    /// `SHUT_WR`
    Write,
    /// `SHUT_RDWR`
    ReadWrite,
}

impl Shutdown {
    /// The raw `SHUT_*` value.
    pub fn as_raw(self) -> (r: u32)
        ensures
            r == (match self {
                Shutdown::Read => 0u32,
                Shutdown::Write => 1u32,
                Shutdown::ReadWrite => 2u32,
            }),
    {
        match self {
            Shutdown::Read => 0,
            Shutdown::Write => 1,
            Shutdown::ReadWrite => 2,
        }
    }
}

} // verus!
