//! The arguments of a WASI `open-at` call, computed from `O_*` flags and a
//! mode. On WASI the `O_*` flags are a 64-bit set: the low byte holds the
//! WASI open flags, the next byte the WASI descriptor flags, and bit 40
//! stands for `O_NOFOLLOW`.
use vstd::prelude::*;

verus! {

/// `O_NOFOLLOW` on WASI.
pub const WASI_O_NOFOLLOW: u64 = 0x100_0000_0000;

/// The read permission bits for user, group and others.
pub const ALL_READ: u32 = 0o444;

/// The write permission bits for user, group and others.
pub const ALL_WRITE: u32 = 0o222;

/// The execute permission bits for user, group and others.
pub const ALL_EXEC: u32 = 0o111;

/// What a WASI `open-at` call is given.
#[derive(Clone, Copy, Debug, PartialEq, Eq, Structural)]
pub struct WasiOpen {
    /// The descriptor flags: bits 8..16 of the `O_*` flags.
    pub fdflags: u8,
    /// The open flags: bits 0..8 of the `O_*` flags.
    pub oflags: u8,
    /// Whether symbolic links are followed: unless `O_NOFOLLOW` is given.
    pub symlink_follow: bool,
    /// Whether the file is opened readable: if everyone may read it.
    pub readable: bool,
    /// Whether the file is opened writeable: if everyone may write it.
    pub writeable: bool,
    /// Whether the file is opened executable: if everyone may execute it.
    pub executable: bool,
}

/// Compute the arguments of `open-at` for the `O_*` flags `flags` and the
/// mode `mode`.
pub fn wasi_open_flags(flags: u64, mode: u32) -> (r: WasiOpen)
    ensures
        r.fdflags == (flags / 0x100) % 0x100,
        r.oflags == flags % 0x100,
        r.symlink_follow == (flags & WASI_O_NOFOLLOW == 0),
        r.readable == (mode & ALL_READ == ALL_READ),
        r.writeable == (mode & ALL_WRITE == ALL_WRITE),
        r.executable == (mode & ALL_EXEC == ALL_EXEC),
{
    #[verifier::truncate]
    let fdflags = (flags >> 8u64) as u8;
    #[verifier::truncate]
    let oflags = (flags & 0xff) as u8;
    assert(fdflags == (flags / 0x100) % 0x100 && oflags == flags % 0x100) by (bit_vector)
        requires
            fdflags == (flags >> 8u64) as u8,
            oflags == (flags & 0xff) as u8,
    ;
    WasiOpen {
        fdflags,
        oflags,
        symlink_follow: flags & WASI_O_NOFOLLOW == 0,
        readable: mode & ALL_READ == ALL_READ,
        writeable: mode & ALL_WRITE == ALL_WRITE,
        executable: mode & ALL_EXEC == ALL_EXEC,
    }
}

} // verus!
