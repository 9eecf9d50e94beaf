use rustix::io::errno;
use rustix::io::error::{check_fd, check_result, check_void};
use rustix::io::Error;

fn ret_of(errno_value: i64) -> usize {
    (-errno_value) as isize as usize
}

#[test]
fn error_keeps_its_errno() {
    let e = Error::from_errno(errno::INVAL);
    assert_eq!(e.raw_os_error(), 22);
    assert_eq!(Error::from_raw_os_error(36).raw_os_error(), 36);
    assert_eq!(Error::from_errno(4095).raw_os_error(), 4095);
    assert_eq!(Error::from_errno(1).raw_os_error(), 1);
}

#[test]
fn errors_with_equal_errno_are_equal() {
    assert_eq!(Error::from_errno(errno::INTR), Error::from_raw_os_error(4));
    assert_ne!(Error::from_errno(errno::INTR), Error::from_errno(errno::AGAIN));
}

#[test]
fn from_os_error_code_accepts_linux_range() {
    assert_eq!(Error::from_os_error_code(Some(11)), Some(Error::from_errno(11)));
    assert_eq!(Error::from_os_error_code(Some(0)), None);
    assert_eq!(Error::from_os_error_code(Some(4096)), None);
    assert_eq!(Error::from_os_error_code(Some(-3)), None);
    assert_eq!(Error::from_os_error_code(None), None);
}

#[test]
fn from_io_error_reads_the_os_code() {
    let io = std::io::Error::from_raw_os_error(4);
    assert_eq!(Error::from_io_error(&io).map(|e| e.raw_os_error()), Some(4));
    let big = std::io::Error::from_raw_os_error(5000);
    assert_eq!(Error::from_io_error(&big), None);
    let other = std::io::Error::new(std::io::ErrorKind::Other, "no code");
    assert_eq!(Error::from_io_error(&other), None);
}

#[test]
fn check_result_splits_error_returns() {
    assert_eq!(check_result(0), Ok(()));
    assert_eq!(check_result(17), Ok(()));
    assert_eq!(check_result(ret_of(22)), Err(Error::from_errno(errno::INVAL)));
    assert_eq!(check_result(ret_of(4095)), Err(Error::from_errno(4095)));
    // -4096 is not an error return.
    assert_eq!(check_result(ret_of(4096)), Ok(()));
}

#[test]
fn check_fd_gives_the_descriptor() {
    assert_eq!(check_fd(3), Ok(3));
    assert_eq!(check_fd(ret_of(9)), Err(Error::from_errno(9)));
}

#[test]
fn check_void_wants_zero() {
    assert_eq!(check_void(0), Ok(()));
    assert_eq!(check_void(ret_of(1)), Err(Error::from_errno(1)));
}
