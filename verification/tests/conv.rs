use rustix::conv::{
    c_int, c_uint, clockid_t, dev_t, fs_advice, hi, lo, loff_t, mode_and_type_as, mode_as,
    negative_pid, no_fd, oflags, oflags_for_open_how, pass_usize, raw_fd, regular_pid, ret,
    ret_c_int, ret_c_uint, ret_discarded_fd, ret_error, ret_raw_fd, ret_u64, ret_usize,
    ret_usize_infallible, ret_void_star, size_of, socklen_t, x86_sys, zero, AT_FDCWD,
};
use rustix::fs::{Advice, FileType, Mode, OFlags};
use rustix::io::Error;
use rustix::reg::{nr, raw_arg, ArgReg, FromAsm, RetReg, ToAsm, A0, R0};
use rustix::time::ClockId;

fn r0(bits: usize) -> RetReg<R0> {
    RetReg::<R0>::from_asm(bits)
}

fn neg(errno_value: isize) -> usize {
    (-errno_value) as usize
}

fn arg(a: ArgReg<'static, A0>) -> usize {
    a.to_asm()
}

#[test]
fn argument_encodings() {
    assert_eq!(arg(zero()), 0);
    assert_eq!(arg(pass_usize(1234)), 1234);
    assert_eq!(arg(raw_fd(AT_FDCWD)), 0xffff_ff9c);
    assert_eq!(arg(raw_fd(7)), 7);
    assert_eq!(arg(no_fd()), usize::MAX);
    assert_eq!(arg(c_int(-1)), usize::MAX);
    assert_eq!(arg(c_int(5)), 5);
    assert_eq!(arg(c_uint(0xffff_ffff)), 0xffff_ffff);
    assert_eq!(arg(loff_t(-2)), usize::MAX - 1);
    assert_eq!(arg(socklen_t(16)), 16);
    assert_eq!(arg(dev_t(0x801)), 0x801);
    assert_eq!(arg(raw_arg(99)), 99);
    assert_eq!(nr(60).to_asm(), 60);
}

#[test]
fn split_64_bit_argument() {
    let x: u64 = 0x1122_3344_5566_7788;
    assert_eq!(arg(lo(x)), 0x1122_3344);
    assert_eq!(arg(hi(x)), 0x5566_7788);
}

#[test]
fn mode_and_flags_arguments() {
    assert_eq!(arg(mode_as(Mode::from_raw_mode(0o644))), 0o644);
    assert_eq!(
        arg(mode_and_type_as(Mode::from_raw_mode(0o600), FileType::Fifo)),
        0o010600
    );
    assert_eq!(arg(oflags(OFlags::from_bits_retain(0o2101))), 0o2101);
    assert_eq!(oflags_for_open_how(OFlags::from_bits_retain(0o100)), 0o100);
    assert_eq!(arg(clockid_t(ClockId::MonotonicRaw)), 4);
}

#[test]
fn return_decodings() {
    assert_eq!(ret(r0(0)), Ok(()));
    assert_eq!(ret(r0(neg(1))), Err(Error::from_errno(1)));
    assert_eq!(ret_error(r0(neg(13))), Error::from_errno(13));
    assert_eq!(ret_c_int(r0(42)), Ok(42));
    assert_eq!(ret_c_int(r0(neg(22))), Err(Error::from_errno(22)));
    assert_eq!(ret_c_uint(r0(7)), Ok(7));
    assert_eq!(ret_u64(r0(1 << 40)), Ok(1u64 << 40));
    assert_eq!(ret_usize(r0(neg(4095))), Err(Error::from_errno(4095)));
    assert_eq!(ret_usize(r0(neg(4096))), Ok(neg(4096)));
    assert_eq!(ret_usize_infallible(r0(12)), 12);
    assert_eq!(ret_raw_fd(r0(3)), Ok(3));
    assert_eq!(ret_raw_fd(r0(neg(24))), Err(Error::from_errno(24)));
    assert_eq!(ret_discarded_fd(r0(5)), Ok(()));
    assert_eq!(ret_discarded_fd(r0(neg(9))), Err(Error::from_errno(9)));
}

#[test]
fn return_register_queries() {
    let r = r0(neg(2));
    assert!(r.is_negative());
    assert!(r.is_nonzero());
    assert!(r.is_in_range(-4095..0));
    assert!(!r0(0).is_nonzero());
    assert!(!r0(5).is_in_range(-4095..0));
    assert_eq!(r0(neg(2)).decode_error_code(), 0xfffe);
    assert_eq!(r0(9).decode_raw_fd(), 9);
    assert_eq!(r0(9).decode_c_uint(), 9);
    assert_eq!(r0(9).decode_u64(), 9);
}

#[test]
fn more_argument_encodings() {
    assert_eq!(arg(x86_sys(3)), 3);
    assert_eq!(arg(size_of::<u64, A0>()), 8);
    assert_eq!(arg(size_of::<[u8; 3], A0>()), 3);
    assert_eq!(arg(regular_pid(1234)), 1234);
    assert_eq!(arg(negative_pid(1)), 0xffff_ffff);
    assert_eq!(arg(negative_pid(1234)), 0x1_0000_0000 - 1234);
    assert_eq!(arg(fs_advice(Advice::DontNeed)), 4);
}

#[test]
fn address_returns() {
    assert_eq!(ret_void_star(r0(0x7f00_0000_1000)), Ok(0x7f00_0000_1000));
    assert_eq!(ret_void_star(r0(neg(12))), Err(Error::from_errno(12)));
    assert_eq!(r0(0x1000).decode_void_star(), 0x1000);
}
