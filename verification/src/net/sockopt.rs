//! The values of socket options, as `setsockopt` takes them and
//! `getsockopt` gives them back.
//!
//! Durations are written as whole seconds and nanoseconds below a second.
use crate::io::errno;
use crate::io::Error;
use vstd::prelude::*;

verus! {

/// `struct timeval`
#[derive(Clone, Copy, Debug, PartialEq, Eq, Structural)]
pub struct Timeval {
    /// seconds
    pub tv_sec: i64,
    /// microseconds
    pub tv_usec: i64,
}

/// `struct linger`
#[derive(Clone, Copy, Debug, PartialEq, Eq, Structural)]
pub struct Linger {
    /// Whether lingering is on.
    pub l_onoff: i32,
    /// The linger time, in seconds.
    pub l_linger: i32,
}

/// The `timeval` that `set_socket_timeout` passes for `timeout`, a
/// duration of whole seconds and nanoseconds below a second: none is
/// `0.0`; seconds beyond the range of `tv_sec` are clamped to its maximum;
/// nanoseconds are cut to microseconds, and a timeout that would so become
/// zero is made one microsecond, as zero means no timeout.
pub open spec fn timeval_of_timeout(timeout: Option<(u64, u32)>) -> Timeval {
    match timeout {
        None => Timeval { tv_sec: 0, tv_usec: 0 },
        Some((secs, nanos)) => {
            let tv_sec = if secs <= i64::MAX {
                secs as i64
            } else {
                i64::MAX
            };
            let tv_usec = (nanos / 1000) as i64;
            if tv_sec == 0 && tv_usec == 0 {
                Timeval { tv_sec: 0, tv_usec: 1 }
            } else {
                Timeval { tv_sec, tv_usec }
            }
        },
    }
}

/// Encode a socket timeout for `setsockopt`. A zero timeout is refused with
/// `INVAL`.
pub fn timeval_from_timeout(timeout: Option<(u64, u32)>) -> (r: Result<Timeval, Error>)
    requires
        timeout matches Some((s, n)) ==> n < 1_000_000_000,
    ensures
        timeout == Some((0u64, 0u32)) ==> (r matches Err(e) && e.errno() == errno::INVAL),
        timeout != Some((0u64, 0u32)) ==> r == Ok::<Timeval, Error>(timeval_of_timeout(timeout)),
{
    match timeout {
        Some((secs, nanos)) => {
            if secs == 0 && nanos == 0 {
                return Err(Error::from_errno(errno::INVAL));
            }
            let tv_sec: i64 = if secs <= i64::MAX as u64 {
                secs as i64
            } else {
                i64::MAX
            };
            let tv_usec = (nanos / 1000) as i64;
            if tv_sec == 0 && tv_usec == 0 {
                Ok(Timeval { tv_sec: 0, tv_usec: 1 })
            } else {
                Ok(Timeval { tv_sec, tv_usec })
            }
        },
        None => Ok(Timeval { tv_sec: 0, tv_usec: 0 }),
    }
}

/// The timeout that a `timeval` from `getsockopt` stands for: none for
/// `0.0`; else its seconds plus its microseconds.
pub open spec fn timeout_of_timeval(tv: Timeval) -> Option<(u64, u32)> {
    if tv.tv_sec == 0 && tv.tv_usec == 0 {
        None
    } else {
        let usec = tv.tv_usec as u64;
        Some(((tv.tv_sec as u64 + usec / 1_000_000) as u64, ((usec % 1_000_000) * 1000) as u32))
    }
}

/// Decode a socket timeout from `getsockopt`. The seconds with the whole
/// seconds of the microseconds added must fit in a `u64`.
pub fn timeout_from_timeval(tv: Timeval) -> (r: Option<(u64, u32)>)
    requires
        (tv.tv_sec as u64) + (tv.tv_usec as u64) / 1_000_000 <= u64::MAX,
    ensures
        r == timeout_of_timeval(tv),
{
    if tv.tv_sec == 0 && tv.tv_usec == 0 {
        None
    } else {
        let usec = tv.tv_usec as u64;
        let secs = tv.tv_sec as u64 + usec / 1_000_000;
        let nanos = ((usec % 1_000_000) * 1000) as u32;
        Some((secs, nanos))
    }
}

/// A nonzero timeout of whole microseconds, whose seconds fit in `tv_sec`,
/// comes back from the `timeval` that encodes it; and no timeout comes back
/// as none.
pub proof fn lemma_timeout_roundtrip(secs: u64, nanos: u32)
    requires
        secs <= i64::MAX,
        nanos < 1_000_000_000,
        nanos % 1000 == 0,
        secs != 0 || nanos != 0,
    ensures
        timeout_of_timeval(timeval_of_timeout(Some((secs, nanos)))) == Some((secs, nanos)),
        timeout_of_timeval(timeval_of_timeout(None)) == None::<(u64, u32)>,
{
    let tv = timeval_of_timeout(Some((secs, nanos)));
    assert(tv.tv_usec == nanos / 1000);
    assert(tv.tv_usec < 1_000_000);
}

/// The `linger` that `set_socket_linger` passes: lingering on, for the
/// whole seconds of the duration, truncated to a `c_int`; or off.
pub fn linger_from_option(linger: Option<(u64, u32)>) -> (l: Linger)
    ensures
        l.l_onoff == (if linger is Some {
            1i32
        } else {
            0i32
        }),
        l.l_linger == (match linger {
            Some((secs, _)) => secs as i32,
            None => 0i32,
        }),
{
    match linger {
        Some((secs, _)) => Linger { l_onoff: 1, l_linger: secs as i32 },
        None => Linger { l_onoff: 0, l_linger: 0 },
    }
}

/// The linger duration that `get_socket_linger` reports: its seconds when
/// lingering is on, none otherwise.
pub fn linger_to_option(linger: Linger) -> (r: Option<(u64, u32)>)
    ensures
        r == (if linger.l_onoff != 0 {
            Some((linger.l_linger as u64, 0u32))
        } else {
            None
        }),
{
    if linger.l_onoff != 0 {
        Some((linger.l_linger as u64, 0u32))
    } else {
        None
    }
}

/// A boolean option value, as `setsockopt` takes it.
pub fn from_bool(value: bool) -> (r: u32)
    ensures
        r == (if value {
            1u32
        } else {
            0u32
        }),
{
    if value {
        1
    } else {
        0
    }
}

/// The interface index of an IPv6 multicast membership, as a `c_int`.
pub fn to_ipv6mr_interface(interface: u32) -> (r: i32)
    ensures
        r == interface as i32,
{
    interface as i32
}

/// The `s_addr` of an IPv4 address: its octets, in memory order, read as a
/// little-endian word.
pub fn to_imr_addr(octets: [u8; 4]) -> (r: u32)
    ensures
        r == octets[0] + octets[1] * 0x100 + octets[2] * 0x1_0000 + octets[3] * 0x100_0000,
{
    let b0 = octets[0] as u32;
    let b1 = octets[1] as u32;
    let b2 = octets[2] as u32;
    let b3 = octets[3] as u32;
    let r = b0 | (b1 << 8u32) | (b2 << 16u32) | (b3 << 24u32);
    assert(r == b0 + b1 * 0x100 + b2 * 0x1_0000 + b3 * 0x100_0000) by (bit_vector)
        requires
            b0 < 256,
            b1 < 256,
            b2 < 256,
            b3 < 256,
            r == b0 | (b1 << 8u32) | (b2 << 16u32) | (b3 << 24u32),
    ;
    r
}

/// `struct ip_mreq`: an IPv4 multicast group and the interface to join it
/// on, each as the 32-bit value that its octets make in memory.
#[derive(Clone, Copy, Debug, PartialEq, Eq, Structural)]
pub struct IpMreq {
    /// The multicast group.
    pub imr_multiaddr: u32,
    /// The local interface.
    pub imr_interface: u32,
}

/// The `ip_mreq` for joining or leaving the group `multiaddr` on the
/// interface with the address `interface`.
pub fn to_imr(multiaddr: [u8; 4], interface: [u8; 4]) -> (r: IpMreq)
    ensures
        r.imr_multiaddr == multiaddr[0] + multiaddr[1] * 0x100 + multiaddr[2] * 0x1_0000
            + multiaddr[3] * 0x100_0000,
        r.imr_interface == interface[0] + interface[1] * 0x100 + interface[2] * 0x1_0000
            + interface[3] * 0x100_0000,
{
    IpMreq { imr_multiaddr: to_imr_addr(multiaddr), imr_interface: to_imr_addr(interface) }
}

/// `struct ipv6_mreq`: an IPv6 multicast group and the index of the
/// interface to join it on.
#[derive(Clone, Copy, Debug, PartialEq, Eq)]
pub struct Ipv6Mreq {
    /// The multicast group's octets.
    pub ipv6mr_multiaddr: [u8; 16],
    /// The interface index.
    pub ipv6mr_ifindex: i32,
}

/// The `in6_addr` octets of a multicast group.
pub fn to_ipv6mr_multiaddr(multiaddr: [u8; 16]) -> (r: [u8; 16])
    ensures
        r == multiaddr,
{
    multiaddr
}

/// The `ipv6_mreq` for joining or leaving the group `multiaddr` on the
/// interface with index `interface`.
pub fn to_ipv6mr(multiaddr: [u8; 16], interface: u32) -> (r: Ipv6Mreq)
    ensures
        r.ipv6mr_multiaddr == multiaddr,
        r.ipv6mr_ifindex == interface as i32,
{
    Ipv6Mreq {
        ipv6mr_multiaddr: to_ipv6mr_multiaddr(multiaddr),
        ipv6mr_ifindex: to_ipv6mr_interface(interface),
    }
}

} // verus!
