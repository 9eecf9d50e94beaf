//! The byte images of `struct sockaddr_in`, `struct sockaddr_in6` and
//! `struct sockaddr_un`, as the kernel reads and writes them on x86-64: the
//! family and the scope id in the machine's little-endian order, the port
//! and the flow label in network order.
//!
//! The BSD sockets API requires reading the `ss_family` field before the
//! rest of a `sockaddr` produced by the kernel can be interpreted.
use crate::net::addr::{
    valid_unix_path, SocketAddrAny, SocketAddrUnix, SocketAddrV4, SocketAddrV6, SUN_PATH_LEN,
};
use crate::bytes::{read_be16, read_le16, read_le32, read_u16_be, read_u16_le, read_u32_le};
use vstd::prelude::*;

verus! {

/// `AF_UNIX`
pub const AF_UNIX: u16 = 1;

/// `AF_INET`
pub const AF_INET: u16 = 2;

/// `AF_INET6`
pub const AF_INET6: u16 = 10;

/// The size of `struct sockaddr_in`.
pub const SIZEOF_SOCKADDR_IN: usize = 16;

/// The size of `struct sockaddr_in6`.
pub const SIZEOF_SOCKADDR_IN6: usize = 28;

/// The size of `struct sockaddr_un`.
pub const SIZEOF_SOCKADDR_UN: usize = 110;

/// The size of `struct sockaddr_storage`.
pub const SIZEOF_SOCKADDR_STORAGE: usize = 128;

/// A 16-bit value in little-endian byte order.
pub open spec fn le16(x: int) -> Seq<u8> {
    seq![(x % 0x100) as u8, ((x / 0x100) % 0x100) as u8]
}

/// A 16-bit value in network (big-endian) byte order.
pub open spec fn be16(x: int) -> Seq<u8> {
    seq![((x / 0x100) % 0x100) as u8, (x % 0x100) as u8]
}

/// A 32-bit value in little-endian byte order.
pub open spec fn le32(x: int) -> Seq<u8> {
    le16(x % 0x1_0000) + le16(x / 0x1_0000)
}

/// A 32-bit value in network (big-endian) byte order.
pub open spec fn be32(x: int) -> Seq<u8> {
    be16(x / 0x1_0000) + be16(x % 0x1_0000)
}

/// `n` zero bytes.
pub open spec fn zeros(n: nat) -> Seq<u8> {
    Seq::new(n, |i: int| 0u8)
}

/// The image of `struct sockaddr_in` for `a`.
pub open spec fn sockaddr_in_image(a: SocketAddrV4) -> Seq<u8> {
    le16(AF_INET as int) + be16(a.port as int) + a.ip@ + zeros(8)
}

/// The image of `struct sockaddr_in6` for `a`.
pub open spec fn sockaddr_in6_image(a: SocketAddrV6) -> Seq<u8> {
    le16(AF_INET6 as int) + be16(a.port as int) + be32(a.flowinfo as int) + a.ip@ + le32(
        a.scope_id as int,
    )
}

/// The image of `struct sockaddr_un` for a socket path: the path, its
/// terminating NUL, and zeros for the rest of `sun_path`.
pub open spec fn sockaddr_un_image(path: Seq<u8>) -> Seq<u8> {
    le16(AF_UNIX as int) + path + seq![0u8] + zeros((SUN_PATH_LEN - path.len() - 1) as nat)
}

/// The image that `write_sockaddr` writes for `addr`, of which the first
/// `sockaddr_len(addr)` bytes are significant.
pub open spec fn sockaddr_image(addr: SocketAddrAny) -> Seq<u8> {
    match addr {
        SocketAddrAny::V4(a) => sockaddr_in_image(a),
        SocketAddrAny::V6(a) => sockaddr_in6_image(a),
        SocketAddrAny::Unix(u) => sockaddr_un_image(u.path_bytes()),
    }
}

/// The length that `write_sockaddr` returns for `addr`.
pub open spec fn sockaddr_len(addr: SocketAddrAny) -> int {
    match addr {
        SocketAddrAny::V4(a) => SIZEOF_SOCKADDR_IN as int,
        SocketAddrAny::V6(a) => SIZEOF_SOCKADDR_IN6 as int,
        SocketAddrAny::Unix(u) => 2int + u.path_bytes().len() + 1,
    }
}

fn push_le16(v: &mut Vec<u8>, x: u16)
    ensures
        final(v)@ == old(v)@ + le16(x as int),
{
    let lo = (x & 0xff) as u8;
    let hi = (x >> 8u16) as u8;
    assert(lo == x % 0x100 && hi == (x / 0x100) % 0x100) by (bit_vector)
        requires
            lo == (x & 0xff) as u8,
            hi == (x >> 8u16) as u8,
    ;
    v.push(lo);
    v.push(hi);
}

fn push_be16(v: &mut Vec<u8>, x: u16)
    ensures
        final(v)@ == old(v)@ + be16(x as int),
{
    let lo = (x & 0xff) as u8;
    let hi = (x >> 8u16) as u8;
    assert(lo == x % 0x100 && hi == (x / 0x100) % 0x100) by (bit_vector)
        requires
            lo == (x & 0xff) as u8,
            hi == (x >> 8u16) as u8,
    ;
    v.push(hi);
    v.push(lo);
}

fn push_le32(v: &mut Vec<u8>, x: u32)
    ensures
        final(v)@ == old(v)@ + le32(x as int),
{
    let lo = (x & 0xffff) as u16;
    let hi = (x >> 16u32) as u16;
    assert(lo == x % 0x1_0000 && hi == x / 0x1_0000) by (bit_vector)
        requires
            lo == (x & 0xffff) as u16,
            hi == (x >> 16u32) as u16,
    ;
    push_le16(v, lo);
    push_le16(v, hi);
    assert(v@ == old(v)@ + le32(x as int));
}

fn push_be32(v: &mut Vec<u8>, x: u32)
    ensures
        final(v)@ == old(v)@ + be32(x as int),
{
    let lo = (x & 0xffff) as u16;
    let hi = (x >> 16u32) as u16;
    assert(lo == x % 0x1_0000 && hi == x / 0x1_0000) by (bit_vector)
        requires
            lo == (x & 0xffff) as u16,
            hi == (x >> 16u32) as u16,
    ;
    push_be16(v, hi);
    push_be16(v, lo);
    assert(v@ == old(v)@ + be32(x as int));
}

fn push_zeros(v: &mut Vec<u8>, n: usize)
    ensures
        final(v)@ == old(v)@ + zeros(n as nat),
{
    let mut i: usize = 0;
    while i < n
        invariant
            i <= n,
            v@ == old(v)@ + zeros(i as nat),
        decreases n - i,
    {
        v.push(0u8);
        i = i + 1;
        assert(v@ == old(v)@ + zeros(i as nat));
    }
}

/// Encode an IPv4 socket address as a `struct sockaddr_in`.
pub fn encode_sockaddr_v4(v4: &SocketAddrV4) -> (r: Vec<u8>)
    ensures
        r@ == sockaddr_in_image(*v4),
        r@.len() == SIZEOF_SOCKADDR_IN,
{
    let mut r: Vec<u8> = Vec::new();
    push_le16(&mut r, AF_INET);
    push_be16(&mut r, v4.port);
    let mut i: usize = 0;
    while i < 4
        invariant
            i <= 4,
            r@ == le16(AF_INET as int) + be16(v4.port as int) + v4.ip@.subrange(0, i as int),
        decreases 4 - i,
    {
        r.push(v4.ip[i]);
        i = i + 1;
    }
    push_zeros(&mut r, 8);
    r
}

/// Encode an IPv6 socket address as a `struct sockaddr_in6`.
pub fn encode_sockaddr_v6(v6: &SocketAddrV6) -> (r: Vec<u8>)
    ensures
        r@ == sockaddr_in6_image(*v6),
        r@.len() == SIZEOF_SOCKADDR_IN6,
{
    let mut r: Vec<u8> = Vec::new();
    push_le16(&mut r, AF_INET6);
    push_be16(&mut r, v6.port);
    push_be32(&mut r, v6.flowinfo);
    let ghost prefix = r@;
    let mut i: usize = 0;
    while i < 16
        invariant
            i <= 16,
            r@ == prefix + v6.ip@.subrange(0, i as int),
        decreases 16 - i,
    {
        r.push(v6.ip[i]);
        i = i + 1;
    }
    push_le32(&mut r, v6.scope_id);
    r
}

/// Encode a Unix-domain socket address as a `struct sockaddr_un`.
pub fn encode_sockaddr_unix(unix: &SocketAddrUnix) -> (r: Vec<u8>)
    ensures
        r@ == sockaddr_un_image(unix.path_bytes()),
        r@.len() == SIZEOF_SOCKADDR_UN,
{
    let bytes = unix.path();
    let mut r: Vec<u8> = Vec::new();
    push_le16(&mut r, AF_UNIX);
    let mut i: usize = 0;
    while i < bytes.len()
        invariant
            i <= bytes@.len(),
            r@ == le16(AF_UNIX as int) + bytes@.subrange(0, i as int),
        decreases bytes.len() - i,
    {
        r.push(bytes[i]);
        i = i + 1;
    }
    r.push(0u8);
    push_zeros(&mut r, SUN_PATH_LEN - bytes.len() - 1);
    r
}

/// Return the offset of the `sun_path` field of `struct sockaddr_un`.
pub fn offsetof_sun_path() -> (r: usize)
    ensures
        r == 2,
{
    2
}

/// Write `addr` into `storage` as a socket address of its family, and
/// return the number of bytes that are significant.
pub fn write_sockaddr(addr: &SocketAddrAny, storage: &mut Vec<u8>) -> (len: usize)
    requires
        old(storage)@.len() >= SIZEOF_SOCKADDR_STORAGE,
    ensures
        len == sockaddr_len(*addr),
        (*addr is V4 || *addr is V6) ==> len == sockaddr_image(*addr).len(),
        *addr matches SocketAddrAny::Unix(u) ==> len == 2 + u.path_bytes().len() + 1,
        final(storage)@.len() == old(storage)@.len(),
        final(storage)@.subrange(0, sockaddr_image(*addr).len() as int) == sockaddr_image(*addr),
        final(storage)@.subrange(sockaddr_image(*addr).len() as int, old(storage)@.len() as int)
            == old(storage)@.subrange(sockaddr_image(*addr).len() as int, old(storage)@.len() as int),
{
    let (image, len) = match addr {
        SocketAddrAny::V4(v4) => (encode_sockaddr_v4(v4), SIZEOF_SOCKADDR_IN),
        SocketAddrAny::V6(v6) => (encode_sockaddr_v6(v6), SIZEOF_SOCKADDR_IN6),
        SocketAddrAny::Unix(unix) => {
            let n = unix.path().len();
            (encode_sockaddr_unix(unix), offsetof_sun_path() + n + 1)
        },
    };
    let mut i: usize = 0;
    while i < image.len()
        invariant
            image@ == sockaddr_image(*addr),
            image@.len() <= SIZEOF_SOCKADDR_UN,
            i <= image@.len(),
            storage@.len() == old(storage)@.len(),
            old(storage)@.len() >= SIZEOF_SOCKADDR_STORAGE,
            forall|j: int| 0 <= j < i ==> storage@[j] == image@[j],
            forall|j: int| i <= j < storage@.len() ==> storage@[j] == old(storage)@[j],
        decreases image.len() - i,
    {
        storage.set(i, image[i]);
        i = i + 1;
    }
    assert(storage@.subrange(0, image@.len() as int) == image@);
    assert(storage@.subrange(image@.len() as int, old(storage)@.len() as int) == old(
        storage,
    )@.subrange(image@.len() as int, old(storage)@.len() as int));
    len
}

/// Whether `storage[..len]` is a socket address that `decode_sockaddr`
/// accepts: it holds at least the family field, and is an IPv4 address of
/// full size, an IPv6 address of full size, or a Unix-domain address that is
/// unnamed or holds a valid NUL-terminated path.
pub open spec fn decodable(storage: Seq<u8>, len: int) -> bool {
    &&& 2 <= len <= storage.len()
    &&& {
        let family = read_le16(storage, 0);
        ||| family == AF_INET && len >= SIZEOF_SOCKADDR_IN
        ||| family == AF_INET6 && len >= SIZEOF_SOCKADDR_IN6
        ||| family == AF_UNIX && len <= SIZEOF_SOCKADDR_UN && (len == 2 || (storage[len - 1] == 0
            && valid_unix_path(storage.subrange(2, len - 1))))
    }
}

/// The path of a decoded Unix-domain address: empty for an unnamed one,
/// else the bytes before the terminating NUL.
pub open spec fn decoded_unix_path(storage: Seq<u8>, len: int) -> Seq<u8> {
    if len == 2 {
        Seq::empty()
    } else {
        storage.subrange(2, len - 1)
    }
}

/// Whether `addr` is the address that `storage[..len]` decodes to.
pub open spec fn decodes_to(storage: Seq<u8>, len: int, addr: SocketAddrAny) -> bool {
    let family = read_le16(storage, 0);
    &&& family == AF_INET ==> (addr matches SocketAddrAny::V4(a) && a.ip@ == storage.subrange(4, 8)
        && a.port == read_be16(storage, 2))
    &&& family == AF_INET6 ==> (addr matches SocketAddrAny::V6(a) && a.port == read_be16(storage, 2)
        && a.flowinfo == read_le32(storage, 4) && a.ip@ == storage.subrange(8, 24) && a.scope_id
        == read_le32(storage, 24))
    &&& family == AF_UNIX ==> (addr matches SocketAddrAny::Unix(u) && u.path_bytes()
        == decoded_unix_path(storage, len))
}

/// Read the `ss_family` field of a socket address.
pub fn read_ss_family(storage: &[u8]) -> (r: u16)
    requires
        storage@.len() >= 2,
    ensures
        r == read_le16(storage@, 0),
{
    read_u16_le(storage, 0)
}

/// Whether `storage[..len]` is a socket address that `decode_sockaddr`
/// accepts.
pub fn sockaddr_decodable(storage: &[u8], len: u32) -> (r: bool)
    ensures
        r == decodable(storage@, len as int),
{
    let n = len as usize;
    if n < 2 || n > storage.len() {
        return false;
    }
    let family = read_ss_family(storage);
    if family == AF_INET {
        return n >= SIZEOF_SOCKADDR_IN;
    }
    if family == AF_INET6 {
        return n >= SIZEOF_SOCKADDR_IN6;
    }
    if family != AF_UNIX || n > SIZEOF_SOCKADDR_UN {
        return false;
    }
    if n == 2 {
        return true;
    }
    if storage[n - 1] != 0 {
        return false;
    }
    let ghost path = storage@.subrange(2, n - 1);
    let mut i: usize = 2;
    while i < n - 1
        invariant
            2 <= i <= n - 1,
            n <= storage@.len(),
            n == len,
            read_le16(storage@, 0) == AF_UNIX,
            path == storage@.subrange(2, n - 1),
            forall|j: int| 2 <= j < i ==> storage@[j] != 0,
        decreases n - 1 - i,
    {
        if storage[i] == 0 {
            assert(path[i - 2] == 0);
            return false;
        }
        i = i + 1;
    }
    assert(forall|j: int| 0 <= j < path.len() ==> path[j] == storage@[j + 2]);
    true
}

/// Decode the socket address in `storage[..len]`, as the kernel wrote it.
pub fn decode_sockaddr(storage: &[u8], len: u32) -> (r: SocketAddrAny)
    requires
        decodable(storage@, len as int),
    ensures
        decodes_to(storage@, len as int, r),
{
    let family = read_ss_family(storage);
    if family == AF_INET {
        let ip: [u8; 4] = [storage[4], storage[5], storage[6], storage[7]];
        let port = read_u16_be(storage, 2);
        assert(ip@ == storage@.subrange(4, 8));
        SocketAddrAny::V4(SocketAddrV4 { ip, port })
    } else if family == AF_INET6 {
        let port = read_u16_be(storage, 2);
        // The flow label is taken as the kernel's field holds it.
        let flowinfo = read_u32_le(storage, 4);
        let mut ip: [u8; 16] = [0u8; 16];
        let mut i: usize = 0;
        while i < 16
            invariant
                i <= 16,
                storage@.len() >= SIZEOF_SOCKADDR_IN6,
                forall|j: int| 0 <= j < i ==> ip@[j] == storage@[8 + j],
            decreases 16 - i,
        {
            ip[i] = storage[8 + i];
            i = i + 1;
        }
        assert(ip@ == storage@.subrange(8, 24));
        let scope_id = read_u32_le(storage, 24);
        SocketAddrAny::V6(SocketAddrV6 { ip, port, flowinfo, scope_id })
    } else {
        let n = len as usize;
        let mut path: Vec<u8> = Vec::new();
        if n > 2 {
            let mut i: usize = 2;
            while i < n - 1
                invariant
                    2 <= i <= n - 1,
                    n <= storage@.len(),
                    path@ == storage@.subrange(2, i as int),
                decreases n - 1 - i,
            {
                path.push(storage[i]);
                i = i + 1;
            }
        }
        assert(path@ == decoded_unix_path(storage@, len as int));
        SocketAddrAny::Unix(SocketAddrUnix::from_valid_path(path))
    }
}

/// Byte-swap of a 32-bit value.
pub open spec fn swap32(x: int) -> int {
    read_le32(be32(x), 0)
}

/// An IPv4 address decodes to itself from the image that encodes it.
pub proof fn lemma_sockaddr_v4_roundtrip(a: SocketAddrV4)
    ensures
        decodable(sockaddr_in_image(a), SIZEOF_SOCKADDR_IN as int),
        read_le16(sockaddr_in_image(a), 0) == AF_INET,
        sockaddr_in_image(a).subrange(4, 8) == a.ip@,
        read_be16(sockaddr_in_image(a), 2) == a.port,
{
    let s = sockaddr_in_image(a);
    assert(s.len() == 16);
    assert(s.subrange(4, 8) =~= a.ip@);
    assert(s[2] == ((a.port as int / 0x100) % 0x100) as u8 && s[3] == (a.port as int % 0x100) as u8);
}

/// An IPv6 address decodes to itself from the image that encodes it, but
/// for its flow label, which is written in network order and read as the
/// kernel's field holds it: it comes back byte-swapped, and so unchanged
/// exactly when its bytes read the same in both orders.
pub proof fn lemma_sockaddr_v6_roundtrip(a: SocketAddrV6)
    ensures
        decodable(sockaddr_in6_image(a), SIZEOF_SOCKADDR_IN6 as int),
        read_le16(sockaddr_in6_image(a), 0) == AF_INET6,
        read_be16(sockaddr_in6_image(a), 2) == a.port,
        sockaddr_in6_image(a).subrange(8, 24) == a.ip@,
        read_le32(sockaddr_in6_image(a), 24) == a.scope_id,
        read_le32(sockaddr_in6_image(a), 4) == swap32(a.flowinfo as int),
{
    let s = sockaddr_in6_image(a);
    assert(s.len() == 28);
    assert(s.subrange(8, 24) =~= a.ip@);
    let sc = a.scope_id as int;
    assert(read_le32(s, 24) == a.scope_id) by {
        assert(s[24] == (sc % 0x1_0000 % 0x100) as u8);
        assert(s[25] == ((sc % 0x1_0000 / 0x100) % 0x100) as u8);
        assert(s[26] == (sc / 0x1_0000 % 0x100) as u8);
        assert(s[27] == ((sc / 0x1_0000 / 0x100) % 0x100) as u8);
    }
    let f = a.flowinfo as int;
    let b = be32(f);
    assert(s.subrange(4, 8) =~= b);
    assert(read_le32(s, 4) == read_le32(b, 0));
}

/// A Unix-domain address decodes to itself from the image that encodes it,
/// with the length that `write_sockaddr` gives.
pub proof fn lemma_sockaddr_unix_roundtrip(path: Seq<u8>)
    requires
        valid_unix_path(path),
    ensures
        decodable(sockaddr_un_image(path), 2int + path.len() + 1),
        read_le16(sockaddr_un_image(path), 0) == AF_UNIX,
        decoded_unix_path(sockaddr_un_image(path), 2int + path.len() + 1) == path,
{
    let s = sockaddr_un_image(path);
    let len = 2int + path.len() + 1;
    assert(s.len() == 110);
    assert(s[len - 1] == 0);
    assert(s.subrange(2, len - 1) =~= path);
}

/// The length that `write_sockaddr` gives is that of the structure it
/// writes for the address's family: the whole `sockaddr_in` or
/// `sockaddr_in6`, or the family and the path with its NUL for a Unix
/// address; and the image cut to that length is an address of that family
/// that decodes.
#[verifier::spinoff_prover]
#[verifier::rlimit(40)]
pub proof fn lemma_written_length(addr: SocketAddrAny)
    requires
        addr matches SocketAddrAny::Unix(u) ==> valid_unix_path(u.path_bytes()),
    ensures
        addr is V4 ==> sockaddr_len(addr) == SIZEOF_SOCKADDR_IN == sockaddr_image(addr).len(),
        addr is V6 ==> sockaddr_len(addr) == SIZEOF_SOCKADDR_IN6 == sockaddr_image(addr).len(),
        addr matches SocketAddrAny::Unix(u) ==> sockaddr_len(addr) == 2 + u.path_bytes().len()
            + 1 <= sockaddr_image(addr).len(),
        decodable(sockaddr_image(addr), sockaddr_len(addr)),
        read_le16(sockaddr_image(addr), 0) == (match addr {
            SocketAddrAny::V4(_) => AF_INET,
            SocketAddrAny::V6(_) => AF_INET6,
            SocketAddrAny::Unix(_) => AF_UNIX,
        }),
{
    match addr {
        SocketAddrAny::V4(a) => {
            lemma_sockaddr_v4_roundtrip(a);
        },
        SocketAddrAny::V6(a) => {
            lemma_sockaddr_v6_roundtrip(a);
        },
        SocketAddrAny::Unix(u) => {
            lemma_sockaddr_unix_roundtrip(u.path_bytes());
        },
    }
}

} // verus!
