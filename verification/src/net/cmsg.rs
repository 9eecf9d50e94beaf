//! The layout of ancillary data, as the `CMSG_*` macros compute it on a
//! 64-bit target. A header is named by its offset in the control buffer
//! that a `msghdr` points to; an absent header is `None`.
use crate::bytes::{read_le64, read_u64_le};
use vstd::prelude::*;

verus! {

/// The size of `struct cmsghdr`: a `size_t` length and two `int`s.
pub const SIZEOF_CMSGHDR: usize = 16;

/// `len` rounded up to a multiple of the word size, 8.
pub open spec fn align8(len: int) -> int {
    ((len + 7) / 8) * 8
}

/// Given a length, returns it including the required alignment.
#[allow(non_snake_case)]
pub fn CMSG_ALIGN(len: usize) -> (r: usize)
    requires
        len + 7 <= usize::MAX,
    ensures
        r == align8(len as int),
{
    let sum = len + 7;
    let r = sum & !7usize;
    assert(r == (sum / 8) * 8) by (bit_vector)
        requires
            r == sum & !7usize,
    ;
    r
}

/// Returns the number of bytes an ancillary element with payload of the
/// passed data length occupies.
#[allow(non_snake_case)]
pub fn CMSG_SPACE(length: usize) -> (r: usize)
    requires
        align8(length as int) + SIZEOF_CMSGHDR <= usize::MAX,
        length + 7 <= usize::MAX,
    ensures
        r == align8(length as int) + SIZEOF_CMSGHDR,
{
    CMSG_ALIGN(length) + CMSG_ALIGN(SIZEOF_CMSGHDR)
}

/// Returns the length to store in `cmsg_len` for an ancillary element with
/// payload of the passed data length.
#[allow(non_snake_case)]
pub fn CMSG_LEN(length: usize) -> (r: usize)
    requires
        SIZEOF_CMSGHDR + length <= usize::MAX,
    ensures
        r == SIZEOF_CMSGHDR + length,
{
    CMSG_ALIGN(SIZEOF_CMSGHDR) + length
}

/// An element's space holds its length: `CMSG_LEN(n) <= CMSG_SPACE(n)`,
/// and the space is the length rounded up to the word size.
pub proof fn lemma_cmsg_len_within_space(n: int)
    requires
        n >= 0,
    ensures
        SIZEOF_CMSGHDR + n <= align8(n) + SIZEOF_CMSGHDR,
        align8(n) + SIZEOF_CMSGHDR == align8(SIZEOF_CMSGHDR + n),
        align8(n) - n < 8,
{
}


/// Returns the first header of the control buffer, if it holds one.
#[allow(non_snake_case)]
pub fn CMSG_FIRSTHDR(control: &[u8]) -> (r: Option<usize>)
    ensures
        r == (if control@.len() >= SIZEOF_CMSGHDR {
            Some(0usize)
        } else {
            None::<usize>
        }),
{
    if control.len() >= SIZEOF_CMSGHDR {
        Some(0)
    } else {
        None
    }
}

/// Returns the position of the data of the header at `cmsg`.
#[allow(non_snake_case)]
pub fn CMSG_DATA(cmsg: usize) -> (r: usize)
    requires
        cmsg + SIZEOF_CMSGHDR <= usize::MAX,
    ensures
        r == cmsg + SIZEOF_CMSGHDR,
{
    cmsg + SIZEOF_CMSGHDR
}

/// The header after the one at `cmsg` in the control buffer `buf`: none
/// when the length of the one at `cmsg` is shorter than a header, or when
/// the next one, or the element it describes, does not fit in the buffer.
pub open spec fn cmsg_next(buf: Seq<u8>, cmsg: int) -> Option<int> {
    let clen = read_le64(buf, cmsg);
    if clen < SIZEOF_CMSGHDR {
        None
    } else {
        let next = cmsg + align8(clen);
        if next + SIZEOF_CMSGHDR > buf.len() {
            None
        } else if next + align8(read_le64(buf, next)) > buf.len() {
            None
        } else {
            Some(next)
        }
    }
}

proof fn lemma_align8_bounds(n: int)
    requires
        n >= 0,
    ensures
        n <= align8(n) < n + 8,
        align8(n) % 8 == 0,
{
    assert(((n + 7) / 8) * 8 <= n + 7) by (nonlinear_arith);
    assert(((n + 7) / 8) * 8 > n - 1) by (nonlinear_arith);
    assert((((n + 7) / 8) * 8) % 8 == 0) by (nonlinear_arith);
}

/// The walk over the headers of a control buffer advances: the next header
/// starts at least a whole header after the current one, at a multiple of
/// eight bytes from it, and lies in the buffer, so a walk ends.
pub proof fn lemma_cmsg_next_advances(buf: Seq<u8>, cmsg: int)
    requires
        0 <= cmsg,
        cmsg + SIZEOF_CMSGHDR <= buf.len(),
    ensures
        cmsg_next(buf, cmsg) matches Some(n) ==> n >= cmsg + SIZEOF_CMSGHDR && (n - cmsg) % 8
            == 0 && n + SIZEOF_CMSGHDR <= buf.len(),
{
    let clen = read_le64(buf, cmsg);
    if clen >= SIZEOF_CMSGHDR {
        lemma_align8_bounds(clen);
    }
}

/// Returns the next header after the one at `cmsg`, or `None` when there
/// is not enough space left in the control buffer.
#[allow(non_snake_case)]
pub fn CMSG_NXTHDR(control: &[u8], cmsg: usize) -> (r: Option<usize>)
    requires
        cmsg + SIZEOF_CMSGHDR <= control@.len(),
    ensures
        r matches Some(n) ==> cmsg_next(control@, cmsg as int) == Some(n as int),
        r is None ==> cmsg_next(control@, cmsg as int) is None,
{
    let len = control.len();
    let clen = read_u64_le(control, cmsg);
    proof {
        lemma_align8_bounds(clen as int);
    }
    if clen < SIZEOF_CMSGHDR as u64 {
        return None;
    }
    let room = len - cmsg - SIZEOF_CMSGHDR;
    if clen > room as u64 {
        return None;
    }
    let step = CMSG_ALIGN(clen as usize);
    if step > room {
        return None;
    }
    let next = cmsg + step;
    let nlen = read_u64_le(control, next);
    proof {
        lemma_align8_bounds(nlen as int);
    }
    let rest = len - next;
    if nlen > rest as u64 {
        return None;
    }
    if nlen as usize > usize::MAX - 7 {
        proof {
            assert((usize::MAX + 1) % 8 == 0);
            assert(align8(nlen as int) > usize::MAX) by (nonlinear_arith)
                requires
                    nlen as int > usize::MAX - 7,
                    align8(nlen as int) >= nlen as int,
                    align8(nlen as int) % 8 == 0,
                    (usize::MAX + 1) % 8 == 0,
            ;
        }
        return None;
    }
    if CMSG_ALIGN(nlen as usize) > rest {
        return None;
    }
    Some(next)
}

/// `struct sock_extended_err`
#[allow(non_camel_case_types)]
#[derive(Clone, Copy, Debug, PartialEq, Eq, Structural)]
pub struct sock_extended_err {
    /// The error number.
    pub ee_errno: u32,
    /// Where the error came from.
    pub ee_origin: u8,
    /// The type.
    pub ee_type: u8,
    /// The code.
    pub ee_code: u8,
    /// Padding.
    pub ee_pad: u8,
    /// Additional information.
    pub ee_info: u32,
    /// Additional data.
    pub ee_daa: u32,
}

/// The size of `struct sock_extended_err`.
pub const SIZEOF_SOCK_EXTENDED_ERR: usize = 16;

/// Returns the position of the address of the node that caused the error
/// described by the `sock_extended_err` at `ee`: right after it.
#[allow(non_snake_case)]
pub fn SO_EE_OFFENDER(ee: usize) -> (r: usize)
    requires
        ee + SIZEOF_SOCK_EXTENDED_ERR <= usize::MAX,
    ensures
        r == ee + SIZEOF_SOCK_EXTENDED_ERR,
{
    ee + SIZEOF_SOCK_EXTENDED_ERR
}

} // verus!
