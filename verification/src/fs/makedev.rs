//! Device numbers: the `dev_t` encoding of a major and a minor number.
use vstd::prelude::*;

verus! {

/// `dev_t`: within the kernel the device number is 32 bits wide, but
/// userspace uses a 64-bit field.
pub type Dev = u64;

/// The device number that `makedev(maj, min)` denotes, stated field by
/// field: bits 0..8 hold the low byte of `min`, bits 8..20 the low 12 bits
/// of `maj`, bits 20..44 the high 24 bits of `min` and bits 44..64 the high
/// 20 bits of `maj`.
pub open spec fn dev_of(maj: u32, min: u32) -> int {
    (min as int % 0x100) + (maj as int % 0x1000) * 0x100 + (min as int / 0x100) * 0x10_0000 + (
    maj as int / 0x1000) * 0x1000_0000_0000
}

/// The major number held in `dev`: bits 8..20 and bits 44..64.
pub open spec fn major_of(dev: u64) -> int {
    (dev as int / 0x100) % 0x1000 + (dev as int / 0x1000_0000_0000) * 0x1000
}

/// The minor number held in `dev`: bits 0..8 and bits 20..44.
pub open spec fn minor_of(dev: u64) -> int {
    dev as int % 0x100 + ((dev as int / 0x10_0000) % 0x100_0000) * 0x100
}

/// `makedev(maj, min)`
pub fn makedev(maj: u32, min: u32) -> (dev: Dev)
    ensures
        dev == dev_of(maj, min),
{
    let ma = maj as u64;
    let mi = min as u64;
    let dev = ((ma & 0xfffff000u64) << 32u64) | ((ma & 0x00000fffu64) << 8u64) | ((mi
        & 0xffffff00u64) << 12u64) | (mi & 0x000000ffu64);
    assert(dev == (mi % 0x100) + (ma % 0x1000) * 0x100 + (mi / 0x100) * 0x10_0000 + (ma / 0x1000)
        * 0x1000_0000_0000) by (bit_vector)
        requires
            ma < 0x1_0000_0000,
            mi < 0x1_0000_0000,
            dev == ((ma & 0xfffff000u64) << 32u64) | ((ma & 0x00000fffu64) << 8u64) | ((mi
                & 0xffffff00u64) << 12u64) | (mi & 0x000000ffu64),
    ;
    dev
}

/// `major(dev)`
pub fn major(dev: Dev) -> (maj: u32)
    ensures
        maj == major_of(dev),
{
    let m = ((dev >> 31u64 >> 1u64) & 0xfffff000u64) | ((dev >> 8u64) & 0x00000fffu64);
    assert(m == (dev / 0x100) % 0x1000 + (dev / 0x1000_0000_0000) * 0x1000 && m < 0x1_0000_0000)
        by (bit_vector)
        requires
            m == ((dev >> 31u64 >> 1u64) & 0xfffff000u64) | ((dev >> 8u64) & 0x00000fffu64),
    ;
    m as u32
}

/// `minor(dev)`
pub fn minor(dev: Dev) -> (min: u32)
    ensures
        min == minor_of(dev),
{
    let m = ((dev >> 12u64) & 0xffffff00u64) | (dev & 0x000000ffu64);
    assert(m == dev % 0x100 + ((dev / 0x10_0000) % 0x100_0000) * 0x100 && m < 0x1_0000_0000)
        by (bit_vector)
        requires
            m == ((dev >> 12u64) & 0xffffff00u64) | (dev & 0x000000ffu64),
    ;
    m as u32
}

/// The major and minor numbers that `makedev` packs are the ones that
/// `major` and `minor` unpack again.
pub proof fn lemma_makedev_roundtrip(maj: u32, min: u32)
    ensures
        0 <= dev_of(maj, min) <= u64::MAX,
        major_of(dev_of(maj, min) as u64) == maj,
        minor_of(dev_of(maj, min) as u64) == min,
{
    let d = dev_of(maj, min);
    assert(0 <= d <= u64::MAX) by (nonlinear_arith)
        requires
            d == (min as int % 0x100) + (maj as int % 0x1000) * 0x100 + (min as int / 0x100)
                * 0x10_0000 + (maj as int / 0x1000) * 0x1000_0000_0000,
            0 <= maj <= 0xffff_ffff,
            0 <= min <= 0xffff_ffff,
    ;
    assert(major_of(d as u64) == maj) by (nonlinear_arith)
        requires
            d == (min as int % 0x100) + (maj as int % 0x1000) * 0x100 + (min as int / 0x100)
                * 0x10_0000 + (maj as int / 0x1000) * 0x1000_0000_0000,
            0 <= maj <= 0xffff_ffff,
            0 <= min <= 0xffff_ffff,
            0 <= d <= u64::MAX,
    ;
    assert(minor_of(d as u64) == min) by (nonlinear_arith)
        requires
            d == (min as int % 0x100) + (maj as int % 0x1000) * 0x100 + (min as int / 0x100)
                * 0x10_0000 + (maj as int / 0x1000) * 0x1000_0000_0000,
            0 <= maj <= 0xffff_ffff,
            0 <= min <= 0xffff_ffff,
            0 <= d <= u64::MAX,
    ;
}

/// Every device number is the `makedev` of its own major and minor
/// numbers.
pub proof fn lemma_dev_decompose(dev: u64)
    ensures
        0 <= major_of(dev) <= u32::MAX,
        0 <= minor_of(dev) <= u32::MAX,
        dev_of(major_of(dev) as u32, minor_of(dev) as u32) == dev,
{
    let ma = major_of(dev);
    let mi = minor_of(dev);
    assert(0 <= ma <= u32::MAX && 0 <= mi <= u32::MAX) by (nonlinear_arith)
        requires
            ma == (dev as int / 0x100) % 0x1000 + (dev as int / 0x1000_0000_0000) * 0x1000,
            mi == dev as int % 0x100 + ((dev as int / 0x10_0000) % 0x100_0000) * 0x100,
            0 <= dev <= u64::MAX,
    ;
    assert(dev_of(ma as u32, mi as u32) == dev) by (nonlinear_arith)
        requires
            ma == (dev as int / 0x100) % 0x1000 + (dev as int / 0x1000_0000_0000) * 0x1000,
            mi == dev as int % 0x100 + ((dev as int / 0x10_0000) % 0x100_0000) * 0x100,
            0 <= ma <= u32::MAX,
            0 <= mi <= u32::MAX,
            0 <= dev <= u64::MAX,
    ;
}

} // verus!
