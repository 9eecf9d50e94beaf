//! The `Error` type: an OS error code, which conceptually corresponds to an
//! `errno` value.
//!
//! Linux returns negated error codes, in `-4095..0`. They are kept here in
//! negated form, as the low 16 bits of the system call's return register, so
//! that they need not be negated after every system call.
use vstd::prelude::*;

verus! {

#[verifier::external_type_specification]
#[verifier::external_body]
pub struct ExIoError(std::io::Error);

/// The error type for the system-call layer: it only holds an OS error
/// code, and no extra error value.
#[derive(Eq, PartialEq, Structural, Hash, Copy, Clone, Debug)]
pub struct Error(u16);

/// Whether `raw`, the return register of a system call, encodes an error:
/// read as a signed value it lies in `-4095..0`.
pub open spec fn is_error_return(raw: usize) -> bool {
    -4095 <= raw as isize && (raw as isize) < 0
}

/// The `errno` value that an error return `raw` encodes: its negation.
pub open spec fn errno_of_return(raw: usize) -> int {
    -(raw as isize)
}

impl Error {
    /// Encoded error values are negated `errno` values in `-4095..0`, taken
    /// modulo 2^16.
    #[verifier::type_invariant]
    spec fn encoded_in_range(self) -> bool {
        0xf001 <= self.0
    }

    /// The negated error code, as a 16-bit value.
    pub closed spec fn encoded(self) -> u16 {
        self.0
    }

    /// The positive `errno` value that this error stands for.
    pub open spec fn errno(self) -> int {
        0x10000 - self.encoded()
    }

    /// Convert from a C errno value (which is positive) to an `Error`.
    pub fn from_errno(raw: u32) -> (e: Self)
        requires
            1 <= raw <= 4095,
        ensures
            e.errno() == raw,
    {
        // Error values are stored in negated form, so that they need not be
        // negated after every system call.
        let neg = 0u32.wrapping_sub(raw);
        let encoded = neg as u16;
        assert(0xf001 <= encoded && encoded == 0x10000 - raw) by (bit_vector)
            requires
                1 <= raw <= 4095,
                neg == 0u32.wrapping_sub(raw),
                encoded == neg as u16,
        ;
        Self(encoded)
    }

    /// Construct an `Error` from a raw OS error number.
    pub fn from_raw_os_error(raw: i32) -> (e: Self)
        requires
            1 <= raw <= 4095,
        ensures
            e.errno() == raw,
    {
        Self::from_errno(raw as u32)
    }

    /// Extract the raw OS error number from this error.
    pub fn raw_os_error(self) -> (r: i32)
        ensures
            r == self.errno(),
            1 <= r <= 4095,
    {
        proof {
            use_type_invariant(self);
        }
        let e = self.0;
        let signed = e as i16 as i32;
        let r = 0i32.wrapping_sub(signed);
        assert(r == 0x10000 - e && 1 <= r <= 4095) by (bit_vector)
            requires
                0xf001 <= e,
                signed == e as i16 as i32,
                r == 0i32.wrapping_sub(signed),
        ;
        r
    }

    /// The error that an OS error number stands for, when it lies in the
    /// range of Linux error numbers, `1..4096`; `None` otherwise.
    pub fn from_os_error_code(raw: Option<i32>) -> (r: Option<Self>)
        ensures
            r matches Some(e) <==> (raw matches Some(c) && 1 <= c < 4096),
            r matches Some(e) ==> e.errno() == raw->0,
    {
        match raw {
            // `std::io::Error` could hold arbitrary "OS error" values, so
            // check that this one is in Linux's range.
            Some(c) => if 1 <= c && c < 4096 {
                Some(Self::from_errno(c as u32))
            } else {
                None
            },
            None => None,
        }
    }

    /// Extract the raw OS error number from a `std::io::Error`, when it
    /// holds one in the range of Linux error numbers.
    pub fn from_io_error(io_err: &std::io::Error) -> (r: Option<Self>)
        ensures
            r is Some <==> (io_error_os_code(*io_err) matches Some(c) && 1 <= c < 4096),
            r matches Some(e) ==> e.errno() == io_error_os_code(*io_err)->0,
    {
        let raw = io_error_raw_os_error(io_err);
        Self::from_os_error_code(raw)
    }
}

/// The OS error number that a `std::io::Error` was created from, if any:
/// what `std::io::Error::raw_os_error` returns for it, a function of the
/// error value alone.
pub uninterp spec fn io_error_os_code(e: std::io::Error) -> Option<i32>;

/// `std::io::Error::raw_os_error`: the OS error number that the error was
/// created from, if any. The contract claims only that the result is
/// `io_error_os_code` of the error; which code that is depends on how the
/// value was made, which Verus does not see.
#[verifier::external_body]
fn io_error_raw_os_error(io_err: &std::io::Error) -> (r: Option<i32>)
    ensures
        r == io_error_os_code(*io_err),
{
    io_err.raw_os_error()
}

/// `from_errno` and `raw_os_error` are inverse: the error made from an
/// `errno` value gives that value back, and two errors with the same
/// `errno` value are the same error.
pub proof fn lemma_errno_roundtrip(a: Error, b: Error)
    ensures
        a.errno() == b.errno() ==> a == b,
{
    if a.errno() == b.errno() {
        assert(a.encoded() == b.encoded());
        assert(a == b);
    }
}

/// Check for an error from the result of a system call which encodes an
/// integer on success.
pub fn check_result(raw: usize) -> (r: Result<(), Error>)
    ensures
        r is Err <==> is_error_return(raw),
        r matches Err(e) ==> e.errno() == errno_of_return(raw),
{
    let signed = raw as isize;
    if -4095 <= signed && signed < 0 {
        return Err(error_from_return(raw));
    }
    Ok(())
}

/// The error that the error return `raw` encodes.
fn error_from_return(raw: usize) -> (e: Error)
    requires
        -4095 <= raw as isize && (raw as isize) < 0,
    ensures
        e.errno() == errno_of_return(raw),
        is_error_return(raw),
{
    let encoded = raw as u16;
    assert(0xf001 <= encoded && 0x10000 - encoded == -(raw as isize)) by (bit_vector)
        requires
            -4095 <= raw as isize && (raw as isize) < 0,
            encoded == raw as u16,
    ;
    Error(encoded)
}

/// Check for an error from the result of a system call which encodes a file
/// descriptor on success.
///
/// This must only be used with system calls which return file descriptors
/// on success: their negative returns are error codes, and their
/// non-negative returns fit in a file descriptor.
pub fn check_fd(raw: usize) -> (r: Result<i32, Error>)
    requires
        (raw as isize) < 0 ==> is_error_return(raw),
        (raw as isize) >= 0 ==> raw <= i32::MAX,
    ensures
        r is Err <==> is_error_return(raw),
        r matches Err(e) ==> e.errno() == errno_of_return(raw),
        r matches Ok(fd) ==> fd == raw,
{
    // Instead of using `check_result` here, just check for negative, since
    // this function is only used for system calls which return file
    // descriptors.
    if (raw as isize) < 0 {
        return Err(error_from_return(raw));
    }
    Ok(raw as i32)
}

/// Check for an error from the result of a system call which encodes no
/// value on success.
///
/// This must only be used with system calls which return no value on
/// success: their nonzero returns are error codes.
pub fn check_void(raw: usize) -> (r: Result<(), Error>)
    requires
        raw != 0 ==> is_error_return(raw),
    ensures
        r is Err <==> raw != 0,
        r matches Err(e) ==> e.errno() == errno_of_return(raw),
{
    if raw != 0 {
        return Err(error_from_return(raw));
    }
    Ok(())
}

} // verus!
