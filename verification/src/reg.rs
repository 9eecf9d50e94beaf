//! Encapsulation for system call arguments and return values.
//!
//! The system-call paths do some amount of reordering of arguments; to
//! ensure that an argument or return value is not accidentally misrouted,
//! distinct types are used for each argument index and return value.
use core::marker::PhantomData;
use crate::io::error::is_error_return;
use vstd::prelude::*;

verus! {

/// Seals the traits of this module: only the types declared here implement
/// them.
pub trait Sealed {

}

/// Conversion of a system-call operand into the `usize` that is passed to
/// the system-call machine instruction.
pub trait ToAsm: Sealed {
    /// The register value that this operand stands for.
    spec fn asm_bits(&self) -> usize;

    /// Convert `self` to a `usize` ready to be passed to a system-call
    /// machine instruction.
    fn to_asm(self) -> (r: usize)
        ensures
            r == self.asm_bits(),
    ;
}

/// Conversion of the `usize` produced by a system-call machine instruction
/// into an operand type.
pub trait FromAsm: Sealed + Sized {
    /// The register value that this operand holds.
    spec fn asm_bits(&self) -> usize;

    /// Convert `bits` from a value produced by a system-call machine
    /// instruction into a `Self`.
    fn from_asm(bits: usize) -> (r: Self)
        ensures
            r.asm_bits() == bits,
    ;
}

/// Argument number 0.
pub struct A0 {}

/// Argument number 1.
pub struct A1 {}

/// Argument number 2.
pub struct A2 {}

/// Argument number 3.
pub struct A3 {}

/// Argument number 4.
pub struct A4 {}

/// Argument number 5.
pub struct A5 {}

/// Marks the argument positions.
pub trait ArgNumber: Sealed {

}

impl Sealed for A0 {

}

impl Sealed for A1 {

}

impl Sealed for A2 {

}

impl Sealed for A3 {

}

impl Sealed for A4 {

}

impl Sealed for A5 {

}

impl ArgNumber for A0 {

}

impl ArgNumber for A1 {

}

impl ArgNumber for A2 {

}

impl ArgNumber for A3 {

}

impl ArgNumber for A4 {

}

impl ArgNumber for A5 {

}

/// Return value number 0.
pub struct R0 {}

/// Return value number 1.
pub struct R1 {}

/// Marks the return-value positions.
pub trait RetNumber: Sealed {

}

impl Sealed for R0 {

}

impl Sealed for R1 {

}

impl RetNumber for R0 {

}

impl RetNumber for R1 {

}

/// System-call arguments use register-sized types. A newtype discourages
/// accidental misuse of the raw integer values.
///
/// It doesn't implement `Clone` or `Copy`; it should be used exactly once.
/// And it has a lifetime to ensure that it doesn't outlive any resources it
/// might be pointing to.
pub struct ArgReg<'a, Num: ArgNumber> {
    bits: usize,
    _phantom: PhantomData<(&'a (), Num)>,
}

impl<'a, Num: ArgNumber> ArgReg<'a, Num> {
    /// The register value of this argument.
    pub closed spec fn bits(&self) -> usize {
        self.bits
    }
}

impl<'a, Num: ArgNumber> Sealed for ArgReg<'a, Num> {

}

impl<'a, Num: ArgNumber> ToAsm for ArgReg<'a, Num> {
    open spec fn asm_bits(&self) -> usize {
        self.bits()
    }

    fn to_asm(self) -> (r: usize) {
        self.bits
    }
}

/// System-call return values use register-sized types. A newtype
/// discourages accidental misuse of the raw integer values.
///
/// It doesn't implement `Clone` or `Copy`; it should be used exactly once.
pub struct RetReg<Num: RetNumber> {
    bits: usize,
    _phantom: PhantomData<Num>,
}

impl<Num: RetNumber> Sealed for RetReg<Num> {

}

impl<Num: RetNumber> FromAsm for RetReg<Num> {
    open spec fn asm_bits(&self) -> usize {
        self.bits()
    }

    fn from_asm(bits: usize) -> (r: Self) {
        Self { bits, _phantom: PhantomData }
    }
}

impl<Num: RetNumber> RetReg<Num> {
    /// The register value that the system call returned.
    pub closed spec fn bits(&self) -> usize {
        self.bits
    }

    /// Whether the returned value encodes an error.
    pub open spec fn is_error(&self) -> bool {
        is_error_return(self.bits())
    }

    /// The returned value, which must not encode an error.
    pub fn decode(self) -> (r: usize)
        requires
            !self.is_error(),
        ensures
            r == self.bits(),
    {
        self.bits
    }

    /// The returned value as a `usize`, which must not encode an error.
    pub fn decode_usize(self) -> (r: usize)
        requires
            !self.is_error(),
        ensures
            r == self.bits(),
    {
        self.decode()
    }

    /// The returned value as a file descriptor, which must not encode an
    /// error and must convert to a file descriptor without loss.
    pub fn decode_raw_fd(self) -> (r: i32)
        requires
            !self.is_error(),
            (self.bits() as i32) as usize == self.bits(),
        ensures
            r == self.bits() as i32,
    {
        let bits = self.decode();
        bits as i32
    }

    /// The returned value as a `c_int`, which must not encode an error and
    /// must convert to a `c_int` without loss.
    pub fn decode_c_int(self) -> (r: i32)
        requires
            !self.is_error(),
            (self.bits() as i32) as usize == self.bits(),
        ensures
            r == self.bits() as i32,
    {
        let bits = self.decode();
        bits as i32
    }

    /// The returned value as a `c_uint`, which must not encode an error and
    /// must fit in a `c_uint`.
    pub fn decode_c_uint(self) -> (r: u32)
        requires
            !self.is_error(),
            self.bits() <= u32::MAX,
        ensures
            r == self.bits(),
    {
        let bits = self.decode();
        bits as u32
    }

    /// The returned value as an address (a `void *`), which must not encode
    /// an error.
    pub fn decode_void_star(self) -> (r: usize)
        requires
            !self.is_error(),
        ensures
            r == self.bits(),
    {
        self.decode()
    }

    /// The returned value as a `u64`, which must not encode an error.
    pub fn decode_u64(self) -> (r: u64)
        requires
            !self.is_error(),
        ensures
            r == self.bits(),
    {
        self.decode() as u64
    }

    /// Consume a returned value that carries no information, which must not
    /// encode an error.
    pub fn decode_void(self)
        requires
            !self.is_error(),
    {
        let _ = self.decode();
    }

    /// The negated error code of a returned value that encodes an error.
    pub fn decode_error_code(self) -> (r: u16)
        requires
            self.is_error(),
        ensures
            r == self.bits() as u16,
    {
        let bits: usize = self.bits;
        bits as u16
    }

    /// Whether the returned value is nonzero.
    pub fn is_nonzero(&self) -> (r: bool)
        ensures
            r == (self.bits() != 0),
    {
        self.bits != 0
    }

    /// Whether the returned value, read as a signed value, is negative.
    pub fn is_negative(&self) -> (r: bool)
        ensures
            r == ((self.bits() as isize) < 0),
    {
        (self.bits as isize) < 0
    }

    /// Whether the returned value, read as a signed value, lies in `range`.
    pub fn is_in_range(&self, range: core::ops::Range<isize>) -> (r: bool)
        ensures
            r == (range.start <= self.bits() as isize && (self.bits() as isize) < range.end),
    {
        let signed = self.bits as isize;
        range.start <= signed && signed < range.end
    }
}

/// A system-call number: a `__NR_*` constant.
pub struct SyscallNumber<'a> {
    nr: usize,
    _phantom: PhantomData<&'a ()>,
}

impl<'a> SyscallNumber<'a> {
    /// The register value of this system-call number.
    pub closed spec fn bits(&self) -> usize {
        self.nr
    }
}

impl<'a> Sealed for SyscallNumber<'a> {

}

impl<'a> ToAsm for SyscallNumber<'a> {
    open spec fn asm_bits(&self) -> usize {
        self.bits()
    }

    fn to_asm(self) -> (r: usize) {
        self.nr
    }
}

/// Encode a system-call argument as an `ArgReg`.
pub fn raw_arg<'a, Num: ArgNumber>(bits: usize) -> (r: ArgReg<'a, Num>)
    ensures
        r.bits() == bits,
{
    ArgReg { bits, _phantom: PhantomData }
}

/// Encode a system-call number (a `__NR_*` constant) as a `SyscallNumber`.
pub fn nr<'a>(num: u32) -> (r: SyscallNumber<'a>)
    ensures
        r.bits() == num,
{
    SyscallNumber { nr: num as usize, _phantom: PhantomData }
}

} // verus!
