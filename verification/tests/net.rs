use rustix::net::sockopt::{to_imr, to_ipv6mr, to_ipv6mr_multiaddr, IpMreq};
use rustix::net::addr::{
    in6_addr_new, in6_addr_s6_addr, in_addr_new, in_addr_s_addr, sockaddr_in6_new,
    sockaddr_in6_sin6_scope_id,
};
use rustix::io::{errno, Error};
use rustix::net::cmsg::{
    sock_extended_err, CMSG_ALIGN, CMSG_DATA, CMSG_FIRSTHDR, CMSG_LEN, CMSG_NXTHDR, CMSG_SPACE,
    SO_EE_OFFENDER,
};
use rustix::net::sockaddr::{
    decode_sockaddr, encode_sockaddr_unix, sockaddr_decodable, encode_sockaddr_v4, encode_sockaddr_v6,
    offsetof_sun_path, read_ss_family, write_sockaddr,
};
use rustix::net::sockopt::{
    from_bool, linger_from_option, linger_to_option, timeout_from_timeval, timeval_from_timeout,
    to_imr_addr, to_ipv6mr_interface, Linger, Timeval,
};
use rustix::net::{
    AddressFamily, Protocol, Shutdown, SocketAddrAny, SocketAddrUnix, SocketAddrV4, SocketAddrV6,
    SocketType,
};

#[test]
fn unix_address_paths() {
    let a = SocketAddrUnix::new(b"/tmp/sock").unwrap();
    assert_eq!(a.path(), b"/tmp/sock");
    let with_nul = SocketAddrUnix::new(b"/tmp/\0sock");
    assert_eq!(with_nul.unwrap_err(), Error::from_errno(errno::INVAL));
    let long = vec![b'a'; 108];
    assert_eq!(
        SocketAddrUnix::new(&long).unwrap_err(),
        Error::from_errno(errno::NAMETOOLONG)
    );
    let longest = vec![b'a'; 107];
    assert_eq!(SocketAddrUnix::new(&longest).unwrap().path().len(), 107);
}

#[test]
fn sockaddr_in_layout() {
    let a = SocketAddrV4 { ip: [127, 0, 0, 1], port: 8080 };
    let img = encode_sockaddr_v4(&a);
    assert_eq!(img, vec![2, 0, 0x1f, 0x90, 127, 0, 0, 1, 0, 0, 0, 0, 0, 0, 0, 0]);
}

#[test]
fn sockaddr_in6_layout() {
    let mut ip = [0u8; 16];
    ip[15] = 1;
    let a = SocketAddrV6 { ip, port: 443, flowinfo: 0x0102_0304, scope_id: 7 };
    let img = encode_sockaddr_v6(&a);
    assert_eq!(img.len(), 28);
    assert_eq!(&img[0..8], &[10, 0, 0x01, 0xbb, 1, 2, 3, 4]);
    assert_eq!(img[23], 1);
    assert_eq!(&img[24..28], &[7, 0, 0, 0]);
}

#[test]
fn sockaddr_un_layout() {
    let a = SocketAddrUnix::new(b"ab").unwrap();
    let img = encode_sockaddr_unix(&a);
    assert_eq!(img.len(), 110);
    assert_eq!(&img[0..5], &[1, 0, b'a', b'b', 0]);
    assert!(img[5..].iter().all(|b| *b == 0));
    assert_eq!(offsetof_sun_path(), 2);
}

#[test]
fn write_sockaddr_keeps_the_rest() {
    let mut storage = vec![0xaau8; 128];
    let addr = SocketAddrAny::V4(SocketAddrV4 { ip: [10, 0, 0, 2], port: 1 });
    let len = write_sockaddr(&addr, &mut storage);
    assert_eq!(len, 16);
    assert_eq!(&storage[0..8], &[2, 0, 0, 1, 10, 0, 0, 2]);
    assert_eq!(storage[16], 0xaa);
    let unix = SocketAddrAny::Unix(SocketAddrUnix::new(b"s").unwrap());
    let mut storage = vec![0xaau8; 128];
    assert_eq!(write_sockaddr(&unix, &mut storage), 4);
    assert_eq!(read_ss_family(&storage), 1);
    assert_eq!(storage[110], 0xaa);
}

#[test]
fn sockaddr_v4_roundtrip() {
    let a = SocketAddrV4 { ip: [192, 168, 1, 20], port: 65535 };
    let img = encode_sockaddr_v4(&a);
    match decode_sockaddr(&img, 16) {
        SocketAddrAny::V4(b) => assert_eq!(b, a),
        other => panic!("decoded {:?}", other),
    }
}

#[test]
fn sockaddr_v6_roundtrip_swaps_flowinfo() {
    let a = SocketAddrV6 { ip: [0xfe; 16], port: 22, flowinfo: 0, scope_id: 3 };
    let img = encode_sockaddr_v6(&a);
    match decode_sockaddr(&img, 28) {
        SocketAddrAny::V6(b) => assert_eq!(b, a),
        other => panic!("decoded {:?}", other),
    }
    // The flow label is encoded in network order and read back as the
    // kernel's field holds it.
    let c = SocketAddrV6 { ip: [0; 16], port: 0, flowinfo: 1, scope_id: 0 };
    match decode_sockaddr(&encode_sockaddr_v6(&c), 28) {
        SocketAddrAny::V6(d) => assert_eq!(d.flowinfo, 0x0100_0000),
        other => panic!("decoded {:?}", other),
    }
}

#[test]
fn sockaddr_unix_roundtrip() {
    let a = SocketAddrUnix::new(b"/run/x.sock").unwrap();
    let img = encode_sockaddr_unix(&a);
    match decode_sockaddr(&img, 2 + 11 + 1) {
        SocketAddrAny::Unix(b) => assert_eq!(b.path(), b"/run/x.sock"),
        other => panic!("decoded {:?}", other),
    }
    match decode_sockaddr(&img, 2) {
        SocketAddrAny::Unix(b) => assert_eq!(b.path(), b""),
        other => panic!("decoded {:?}", other),
    }
}

#[test]
fn socket_constants() {
    assert_eq!(SocketType::from_raw(1).as_raw(), 1);
    assert_eq!(AddressFamily::from_raw(10).as_raw(), 10);
    assert_eq!(Protocol::Tcp.as_raw(), 6);
    assert_eq!(Protocol::Udp.as_raw(), 17);
    assert_eq!(Protocol::Ipv6.as_raw(), 41);
    assert_eq!(Protocol::Mptcp.as_raw(), 262);
    assert_eq!(Protocol::Raw.as_raw(), 255);
    assert_eq!(Shutdown::Read.as_raw(), 0);
    assert_eq!(Shutdown::Write.as_raw(), 1);
    assert_eq!(Shutdown::ReadWrite.as_raw(), 2);
}

#[test]
fn cmsg_lengths() {
    assert_eq!(CMSG_ALIGN(0), 0);
    assert_eq!(CMSG_ALIGN(1), 8);
    assert_eq!(CMSG_ALIGN(8), 8);
    assert_eq!(CMSG_ALIGN(13), 16);
    assert_eq!(CMSG_LEN(4), 20);
    assert_eq!(CMSG_SPACE(4), 24);
    assert_eq!(CMSG_SPACE(0), 16);
    for n in 0..64usize {
        assert!(CMSG_LEN(n) <= CMSG_SPACE(n));
        assert_eq!(CMSG_SPACE(n), CMSG_ALIGN(CMSG_LEN(n)));
    }
}

fn put_len(buf: &mut [u8], at: usize, len: u64) {
    buf[at..at + 8].copy_from_slice(&len.to_le_bytes());
}

#[test]
fn cmsg_headers_in_a_buffer() {
    let mut buf = vec![0u8; 48];
    assert_eq!(CMSG_FIRSTHDR(&buf), Some(0));
    assert_eq!(CMSG_FIRSTHDR(&buf[..15]), None);
    put_len(&mut buf, 0, 20);
    put_len(&mut buf, 24, 20);
    assert_eq!(CMSG_NXTHDR(&buf, 0), Some(24));
    // The second element would run past the buffer.
    put_len(&mut buf, 24, 30);
    assert_eq!(CMSG_NXTHDR(&buf, 0), None);
    // A length shorter than a header ends the walk.
    put_len(&mut buf, 0, 8);
    assert_eq!(CMSG_NXTHDR(&buf, 0), None);
    // A huge length ends it too.
    put_len(&mut buf, 0, u64::MAX);
    assert_eq!(CMSG_NXTHDR(&buf, 0), None);
    assert_eq!(CMSG_DATA(24), 40);
}

#[test]
fn extended_error_offender() {
    let e = sock_extended_err {
        ee_errno: 111,
        ee_origin: 2,
        ee_type: 3,
        ee_code: 1,
        ee_pad: 0,
        ee_info: 0,
        ee_daa: 0,
    };
    assert_eq!(e.ee_errno, 111);
    assert_eq!(SO_EE_OFFENDER(64), 80);
}

#[test]
fn socket_timeouts() {
    assert_eq!(timeval_from_timeout(None), Ok(Timeval { tv_sec: 0, tv_usec: 0 }));
    assert_eq!(
        timeval_from_timeout(Some((0, 0))),
        Err(Error::from_errno(errno::INVAL))
    );
    assert_eq!(
        timeval_from_timeout(Some((2, 500_000_000))),
        Ok(Timeval { tv_sec: 2, tv_usec: 500_000 })
    );
    // Below a microsecond rounds up to one.
    assert_eq!(
        timeval_from_timeout(Some((0, 500))),
        Ok(Timeval { tv_sec: 0, tv_usec: 1 })
    );
    assert_eq!(
        timeval_from_timeout(Some((u64::MAX, 0))),
        Ok(Timeval { tv_sec: i64::MAX, tv_usec: 0 })
    );
    assert_eq!(timeout_from_timeval(Timeval { tv_sec: 0, tv_usec: 0 }), None);
    assert_eq!(
        timeout_from_timeval(Timeval { tv_sec: 3, tv_usec: 250_000 }),
        Some((3, 250_000_000))
    );
}

#[test]
fn socket_timeout_roundtrip() {
    for (secs, nanos) in [(1u64, 0u32), (0, 1000), (59, 999_999_000)] {
        let tv = timeval_from_timeout(Some((secs, nanos))).unwrap();
        assert_eq!(timeout_from_timeval(tv), Some((secs, nanos)));
    }
    // A timeout below a microsecond does not come back as it was.
    let tv = timeval_from_timeout(Some((0, 500))).unwrap();
    assert_eq!(timeout_from_timeval(tv), Some((0, 1000)));
}

#[test]
fn socket_options() {
    assert_eq!(linger_from_option(Some((5, 0))), Linger { l_onoff: 1, l_linger: 5 });
    assert_eq!(linger_from_option(None), Linger { l_onoff: 0, l_linger: 0 });
    assert_eq!(linger_to_option(Linger { l_onoff: 1, l_linger: 9 }), Some((9, 0)));
    assert_eq!(linger_to_option(Linger { l_onoff: 0, l_linger: 9 }), None);
    assert_eq!(from_bool(true), 1);
    assert_eq!(from_bool(false), 0);
    assert_eq!(to_ipv6mr_interface(3), 3);
    assert_eq!(to_imr_addr([127, 0, 0, 1]), 0x0100_007f);
}

#[test]
fn decodable_addresses() {
    let v4 = encode_sockaddr_v4(&SocketAddrV4 { ip: [1, 2, 3, 4], port: 5 });
    assert!(sockaddr_decodable(&v4, 16));
    assert!(!sockaddr_decodable(&v4, 15));
    assert!(!sockaddr_decodable(&v4, 17));
    assert!(!sockaddr_decodable(&v4, 1));
    let unix = encode_sockaddr_unix(&SocketAddrUnix::new(b"ab").unwrap());
    assert!(sockaddr_decodable(&unix, 2));
    assert!(sockaddr_decodable(&unix, 5));
    // The last byte must be the terminating NUL.
    assert!(!sockaddr_decodable(&unix, 4));
    // The path must not hold a NUL before it.
    assert!(!sockaddr_decodable(&unix, 6));
    let mut other = v4.clone();
    other[0] = 17;
    assert!(!sockaddr_decodable(&other, 16));
}

#[test]
fn multicast_requests() {
    assert_eq!(
        to_imr([224, 0, 0, 1], [192, 168, 0, 2]),
        IpMreq { imr_multiaddr: 0x0100_00e0, imr_interface: 0x0200_a8c0 }
    );
    let mut group = [0u8; 16];
    group[0] = 0xff;
    group[15] = 1;
    let m = to_ipv6mr(group, 3);
    assert_eq!(m.ipv6mr_multiaddr, group);
    assert_eq!(m.ipv6mr_ifindex, 3);
    assert_eq!(to_ipv6mr(group, u32::MAX).ipv6mr_ifindex, -1);
    assert_eq!(to_ipv6mr_multiaddr(group), group);
}

#[test]
fn raw_address_structs() {
    assert_eq!(in_addr_s_addr(in_addr_new(0x0100_007f)), 0x0100_007f);
    let octets = [7u8; 16];
    assert_eq!(in6_addr_s6_addr(in6_addr_new(octets)), octets);
    let a = sockaddr_in6_new(10, 0x5000, 0, in6_addr_new(octets), 9);
    assert_eq!(sockaddr_in6_sin6_scope_id(&a), 9);
    assert_eq!(a.sin6_port, 0x5000);
}
