//! System-call arguments and return values are all `usize`. This module
//! provides functions for converting into and out of `usize` values.
use crate::fs::types::{fadvise_number, mode_of_file_type, Advice, FileType, Mode, OFlags};
use crate::io::error::{errno_of_return, is_error_return, Error};
use crate::reg::{raw_arg, ArgNumber, ArgReg, RetReg, R0};
use crate::time::{clock_number, ClockId};
use vstd::prelude::*;

verus! {

/// `AT_FDCWD`: the file descriptor that stands for the current working
/// directory in `*at` functions.
pub const AT_FDCWD: i32 = -100;

/// The low half of a 64-bit argument passed in two registers on a 32-bit
/// little-endian target: the kernel takes the high word first.
pub fn lo<'a, Num: ArgNumber>(x: u64) -> (r: ArgReg<'a, Num>)
    ensures
        r.bits() == x / 0x1_0000_0000,
{
    let h = x >> 32u64;
    assert(h == x / 0x1_0000_0000) by (bit_vector)
        requires
            h == x >> 32u64,
    ;
    raw_arg(h as usize)
}

/// The high half of a 64-bit argument passed in two registers on a 32-bit
/// little-endian target: the kernel takes the low word second.
pub fn hi<'a, Num: ArgNumber>(x: u64) -> (r: ArgReg<'a, Num>)
    ensures
        r.bits() == x % 0x1_0000_0000,
{
    let l = x & 0xffff_ffffu64;
    assert(l == x % 0x1_0000_0000) by (bit_vector)
        requires
            l == x & 0xffff_ffffu64,
    ;
    raw_arg(l as usize)
}

/// A `SYS_*` constant of the `socketcall` multiplexer of 32-bit x86.
pub fn x86_sys<'a, Num: ArgNumber>(sys: u32) -> (r: ArgReg<'a, Num>)
    ensures
        r.bits() == sys,
{
    raw_arg(sys as usize)
}

/// The size of a `T`, for system calls that take the size of the object
/// that another argument points to.
pub fn size_of<'a, T: Sized, Num: ArgNumber>() -> (r: ArgReg<'a, Num>)
    ensures
        r.bits() == vstd::layout::size_of::<T>(),
{
    raw_arg(core::mem::size_of::<T>())
}

/// A zero argument.
pub fn zero<'a, Num: ArgNumber>() -> (r: ArgReg<'a, Num>)
    ensures
        r.bits() == 0,
{
    raw_arg(0)
}

/// A `usize` argument, passed as it is.
pub fn pass_usize<'a, Num: ArgNumber>(t: usize) -> (r: ArgReg<'a, Num>)
    ensures
        r.bits() == t,
{
    raw_arg(t)
}

/// A raw file descriptor argument: either `AT_FDCWD` or a non-negative
/// descriptor.
///
/// Linux doesn't look at the high bits beyond the `c_int`, so zero-extension
/// is used rather than sign-extension, because it's a smaller instruction.
pub fn raw_fd<'a, Num: ArgNumber>(fd: i32) -> (r: ArgReg<'a, Num>)
    requires
        fd == AT_FDCWD || fd >= 0,
    ensures
        r.bits() == fd as u32,
{
    raw_arg(fd as u32 as usize)
}

/// The "no file descriptor" argument, `-1`.
pub fn no_fd<'a, Num: ArgNumber>() -> (r: ArgReg<'a, Num>)
    ensures
        r.bits() == usize::MAX,
{
    raw_arg(usize::MAX)
}

/// A process id argument; process ids are positive.
pub fn regular_pid<'a, Num: ArgNumber>(pid: u32) -> (r: ArgReg<'a, Num>)
    requires
        pid != 0,
    ensures
        r.bits() == pid,
{
    raw_arg(pid as usize)
}

/// A process id argument negated, as the 32-bit value that names the
/// process group `pid`, zero-extended.
pub fn negative_pid<'a, Num: ArgNumber>(pid: u32) -> (r: ArgReg<'a, Num>)
    requires
        pid != 0,
    ensures
        r.bits() == 0x1_0000_0000 - pid,
{
    raw_arg(0u32.wrapping_sub(pid) as usize)
}

/// A `POSIX_FADV_*` argument.
pub fn fs_advice<'a, Num: ArgNumber>(advice: Advice) -> (r: ArgReg<'a, Num>)
    ensures
        r.bits() == fadvise_number(advice),
{
    c_uint(advice.as_raw())
}

/// A `c_int` argument, sign-extended to the register width.
pub fn c_int<'a, Num: ArgNumber>(i: i32) -> (r: ArgReg<'a, Num>)
    ensures
        r.bits() == i as usize,
        r.bits() as isize == i,
{
    let b = i as usize;
    assert(b as isize == i) by (bit_vector)
        requires
            b == i as usize,
    ;
    raw_arg(b)
}

/// A `c_uint` argument, zero-extended to the register width.
pub fn c_uint<'a, Num: ArgNumber>(i: u32) -> (r: ArgReg<'a, Num>)
    ensures
        r.bits() == i,
{
    raw_arg(i as usize)
}

/// A `loff_t` argument on a 64-bit target.
pub fn loff_t<'a, Num: ArgNumber>(i: i64) -> (r: ArgReg<'a, Num>)
    ensures
        r.bits() == i as usize,
{
    raw_arg(i as usize)
}

/// A `u64` offset passed as a `loff_t` on a 64-bit target. `loff_t` is
/// signed, but system calls which expect `loff_t` return `EINVAL` if it's
/// outside the signed `i64` range, so it is cast silently.
pub fn loff_t_from_u64<'a, Num: ArgNumber>(i: u64) -> (r: ArgReg<'a, Num>)
    ensures
        r.bits() == i as usize,
{
    raw_arg(i as usize)
}

/// A `socklen_t` argument.
pub fn socklen_t<'a, Num: ArgNumber>(i: u32) -> (r: ArgReg<'a, Num>)
    ensures
        r.bits() == i,
{
    raw_arg(i as usize)
}

/// A file-mode argument.
pub fn mode_as<'a, Num: ArgNumber>(mode: Mode) -> (r: ArgReg<'a, Num>)
    ensures
        r.bits() == mode.view_bits(),
{
    raw_arg(mode.bits() as usize)
}

/// A file-mode argument together with a file type, as `mknodat` takes it.
pub fn mode_and_type_as<'a, Num: ArgNumber>(mode: Mode, file_type: FileType) -> (r: ArgReg<
    'a,
    Num,
>)
    ensures
        r.bits() == (mode.view_bits() | mode_of_file_type(file_type) as u32),
{
    let m = mode.as_raw_mode();
    let t = file_type.as_raw_mode();
    raw_arg((m | t) as usize)
}

/// A `dev_t` argument on a 64-bit target.
pub fn dev_t<'a, Num: ArgNumber>(dev: u64) -> (r: ArgReg<'a, Num>)
    ensures
        r.bits() == dev as usize,
{
    raw_arg(dev as usize)
}

/// The open flags as the kernel takes them on a 64-bit target, where no
/// `O_LARGEFILE` needs adding.
pub fn oflags_bits(oflags: OFlags) -> (r: u32)
    ensures
        r == oflags.view_bits(),
{
    oflags.bits()
}

/// An open-flags argument.
pub fn oflags<'a, Num: ArgNumber>(flags: OFlags) -> (r: ArgReg<'a, Num>)
    ensures
        r.bits() == flags.view_bits(),
{
    raw_arg(oflags_bits(flags) as usize)
}

/// The open flags for the `flags` field of `struct open_how`.
pub fn oflags_for_open_how(oflags: OFlags) -> (r: u64)
    ensures
        r == oflags.view_bits(),
{
    oflags_bits(oflags) as u64
}

/// A clock-id argument.
pub fn clockid_t<'a, Num: ArgNumber>(i: ClockId) -> (r: ArgReg<'a, Num>)
    ensures
        r.bits() == clock_number(i),
{
    raw_arg(i.as_raw() as usize)
}

/// Decode the return value of a system call that returns a `usize` on
/// success.
fn try_decode_usize(raw: RetReg<R0>) -> (r: Result<usize, Error>)
    ensures
        r is Err <==> raw.is_error(),
        r matches Err(e) ==> e.errno() == errno_of_return(raw.bits()),
        r matches Ok(v) ==> v == raw.bits(),
{
    let ghost bits = raw.bits();
    if raw.is_in_range(-4095..0) {
        let code = raw.decode_error_code();
        assert(0x10000 - code == -(bits as isize) && 0xf001 <= code) by (bit_vector)
            requires
                code == bits as u16,
                -4095 <= bits as isize && (bits as isize) < 0,
        ;
        let e = Error::from_errno(0x10000u32 - code as u32);
        Err(e)
    } else {
        Ok(raw.decode())
    }
}

/// Convert the return value of a system call that returns `0` on success.
///
/// This must only be used with system calls whose nonzero returns are error
/// codes.
pub fn ret(raw: RetReg<R0>) -> (r: Result<(), Error>)
    requires
        raw.bits() != 0 ==> raw.is_error(),
    ensures
        r is Err <==> raw.bits() != 0,
        r matches Err(e) ==> e.errno() == errno_of_return(raw.bits()),
{
    match try_decode_usize(raw) {
        Ok(_) => Ok(()),
        Err(e) => Err(e),
    }
}

/// Convert the return value of a system call that doesn't return on
/// success.
pub fn ret_error(raw: RetReg<R0>) -> (e: Error)
    requires
        raw.is_error(),
    ensures
        e.errno() == errno_of_return(raw.bits()),
{
    match try_decode_usize(raw) {
        Ok(_) => {
            assert(false);
            Error::from_errno(1)
        },
        Err(e) => e,
    }
}

/// Consume the return value of a system call that always returns `0`.
pub fn ret_infallible(raw: RetReg<R0>)
    requires
        raw.bits() == 0,
{
    let _ = try_decode_usize(raw);
}

/// Convert the return value of a system call that returns a `c_int` on
/// success; a successful return must convert to a `c_int` without loss.
pub fn ret_c_int(raw: RetReg<R0>) -> (r: Result<i32, Error>)
    requires
        !raw.is_error() ==> (raw.bits() as i32) as usize == raw.bits(),
    ensures
        r is Err <==> raw.is_error(),
        r matches Err(e) ==> e.errno() == errno_of_return(raw.bits()),
        r matches Ok(v) ==> v == raw.bits() as i32,
{
    match try_decode_usize(raw) {
        Ok(v) => Ok(v as i32),
        Err(e) => Err(e),
    }
}

/// Convert the return value of a system call that returns a `c_uint` on
/// success; a successful return must fit in a `c_uint`.
pub fn ret_c_uint(raw: RetReg<R0>) -> (r: Result<u32, Error>)
    requires
        !raw.is_error() ==> raw.bits() <= u32::MAX,
    ensures
        r is Err <==> raw.is_error(),
        r matches Err(e) ==> e.errno() == errno_of_return(raw.bits()),
        r matches Ok(v) ==> v == raw.bits(),
{
    match try_decode_usize(raw) {
        Ok(v) => Ok(v as u32),
        Err(e) => Err(e),
    }
}

/// Convert the return value of a system call that returns a `u64` on
/// success, on a 64-bit target.
pub fn ret_u64(raw: RetReg<R0>) -> (r: Result<u64, Error>)
    ensures
        r is Err <==> raw.is_error(),
        r matches Err(e) ==> e.errno() == errno_of_return(raw.bits()),
        r matches Ok(v) ==> v == raw.bits(),
{
    match try_decode_usize(raw) {
        Ok(v) => Ok(v as u64),
        Err(e) => Err(e),
    }
}

/// Convert the return value of a system call that returns a `usize` on
/// success.
pub fn ret_usize(raw: RetReg<R0>) -> (r: Result<usize, Error>)
    ensures
        r is Err <==> raw.is_error(),
        r matches Err(e) ==> e.errno() == errno_of_return(raw.bits()),
        r matches Ok(v) ==> v == raw.bits(),
{
    try_decode_usize(raw)
}

/// Convert the return value of a system call that always returns a
/// `usize`.
pub fn ret_usize_infallible(raw: RetReg<R0>) -> (r: usize)
    requires
        !raw.is_error(),
    ensures
        r == raw.bits(),
{
    raw.decode_usize()
}

/// Convert the return value of a system call that returns a file
/// descriptor on success; a successful return must be a file descriptor.
pub fn ret_raw_fd(raw: RetReg<R0>) -> (r: Result<i32, Error>)
    requires
        !raw.is_error() ==> raw.bits() <= i32::MAX,
    ensures
        r is Err <==> raw.is_error(),
        r matches Err(e) ==> e.errno() == errno_of_return(raw.bits()),
        r matches Ok(fd) ==> fd == raw.bits() && fd >= 0,
{
    if raw.is_in_range(-4095..0) {
        match try_decode_usize(raw) {
            Ok(_) => {
                assert(false);
                Ok(0)
            },
            Err(e) => Err(e),
        }
    } else {
        assert(!raw.is_error());
        Ok(raw.decode_raw_fd())
    }
}

/// Convert the return value of `dup2` and `dup3`. When these functions
/// succeed, they return the same value as their second argument, so no new
/// descriptor is made of it.
pub fn ret_discarded_fd(raw: RetReg<R0>) -> (r: Result<(), Error>)
    requires
        !raw.is_error() ==> raw.bits() <= i32::MAX,
    ensures
        r is Err <==> raw.is_error(),
        r matches Err(e) ==> e.errno() == errno_of_return(raw.bits()),
{
    match ret_raw_fd(raw) {
        Ok(_raw_fd) => Ok(()),
        Err(e) => Err(e),
    }
}

/// Convert the return value of a system call that returns an address (a
/// `void *`) on success.
pub fn ret_void_star(raw: RetReg<R0>) -> (r: Result<usize, Error>)
    ensures
        r is Err <==> raw.is_error(),
        r matches Err(e) ==> e.errno() == errno_of_return(raw.bits()),
        r matches Ok(v) ==> v == raw.bits(),
{
    if raw.is_in_range(-4095..0) {
        Err(ret_error(raw))
    } else {
        Ok(raw.decode_void_star())
    }
}

} // verus!
