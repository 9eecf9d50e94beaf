//! File types and modes.
use vstd::prelude::*;

verus! {

/// `mode_t`
pub type RawMode = u32;

/// `S_IFMT`: the bits of a mode that hold the file type.
pub const S_IFMT: u32 = 0o170000;

/// `S_IFSOCK`
pub const S_IFSOCK: u32 = 0o140000;

/// `S_IFLNK`
pub const S_IFLNK: u32 = 0o120000;

/// `S_IFREG`
pub const S_IFREG: u32 = 0o100000;

/// `S_IFBLK`
pub const S_IFBLK: u32 = 0o060000;

/// `S_IFDIR`
pub const S_IFDIR: u32 = 0o040000;

/// `S_IFCHR`
pub const S_IFCHR: u32 = 0o020000;

/// `S_IFIFO`
pub const S_IFIFO: u32 = 0o010000;

/// `S_I*` bits of a file mode, for use with `openat`.
#[derive(Clone, Copy, Debug, PartialEq, Eq, Structural, Hash)]
pub struct Mode {
    bits: RawMode,
}

impl Mode {
    /// The raw mode bits.
    pub closed spec fn view_bits(self) -> RawMode {
        self.bits
    }

    /// The mode with the given raw bits.
    pub fn from_raw_mode(bits: RawMode) -> (m: Self)
        ensures
            m.view_bits() == bits,
    {
        Self { bits }
    }

    /// The raw mode bits.
    pub fn bits(self) -> (r: RawMode)
        ensures
            r == self.view_bits(),
    {
        self.bits
    }

    /// The raw mode bits, as a `mode_t`.
    pub fn as_raw_mode(self) -> (r: RawMode)
        ensures
            r == self.view_bits(),
    {
        self.bits
    }
}

/// `O_*` flags for use with `openat`.
#[derive(Clone, Copy, Debug, PartialEq, Eq, Structural, Hash)]
pub struct OFlags {
    bits: u32,
}

impl OFlags {
    /// The raw flag bits.
    pub closed spec fn view_bits(self) -> u32 {
        self.bits
    }

    /// The flags with the given raw bits.
    pub fn from_bits_retain(bits: u32) -> (f: Self)
        ensures
            f.view_bits() == bits,
    {
        Self { bits }
    }

    /// The raw flag bits.
    pub fn bits(self) -> (r: u32)
        ensures
            r == self.view_bits(),
    {
        self.bits
    }
}

/// `S_IF*` constants.
#[derive(Clone, Copy, Debug, PartialEq, Eq, Structural)]
pub enum FileType {
    /// `S_IFREG`
    RegularFile,
    /// `S_IFDIR`
    Directory,
    /// `S_IFLNK`
    Symlink,
    /// `S_IFIFO`
    Fifo,
    /// `S_IFSOCK`
    Socket,
    /// `S_IFCHR`
    CharacterDevice,
    /// `S_IFBLK`
    BlockDevice,
    /// An unknown filesystem object.
    Unknown,
}

/// The file type that a 4-bit file-format code stands for. The codes are
/// those of bits 12..16 of `st_mode`, and also those of `d_type`.
pub open spec fn file_type_of_format(format: int) -> FileType {
    if format == 8 {
        FileType::RegularFile
    } else if format == 4 {
        FileType::Directory
    } else if format == 10 {
        FileType::Symlink
    } else if format == 1 {
        FileType::Fifo
    } else if format == 12 {
        FileType::Socket
    } else if format == 2 {
        FileType::CharacterDevice
    } else if format == 6 {
        FileType::BlockDevice
    } else {
        FileType::Unknown
    }
}

/// The file-format code of a mode: bits 12..16.
pub open spec fn format_of_mode(mode: u32) -> int {
    (mode as int / 0x1000) % 16
}

impl FileType {
    /// Construct a `FileType` from the `st_mode` field of a `Stat`.
    pub fn from_raw_mode(st_mode: RawMode) -> (t: Self)
        ensures
            t == file_type_of_format(format_of_mode(st_mode)),
    {
        let format = st_mode & S_IFMT;
        assert(format == format_of_mode(st_mode) * 0x1000) by (bit_vector)
            requires
                format == st_mode & 0o170000u32,
        ;
        if format == S_IFREG {
            Self::RegularFile
        } else if format == S_IFDIR {
            Self::Directory
        } else if format == S_IFLNK {
            Self::Symlink
        } else if format == S_IFIFO {
            Self::Fifo
        } else if format == S_IFSOCK {
            Self::Socket
        } else if format == S_IFCHR {
            Self::CharacterDevice
        } else if format == S_IFBLK {
            Self::BlockDevice
        } else {
            Self::Unknown
        }
    }

    /// Construct a `FileType` from the `st_mode` field of a `Stat`.
    pub fn from_mode(st_mode: Mode) -> (t: Self)
        ensures
            t == file_type_of_format(format_of_mode(st_mode.view_bits())),
    {
        Self::from_raw_mode(st_mode.bits())
    }

    /// Construct a `FileType` from the `d_type` field of a `dirent`.
    pub fn from_dirent_d_type(d_type: u8) -> (t: Self)
        ensures
            t == file_type_of_format(d_type as int),
    {
        match d_type {
            8 => Self::RegularFile,  // DT_REG
            4 => Self::Directory,  // DT_DIR
            10 => Self::Symlink,  // DT_LNK
            12 => Self::Socket,  // DT_SOCK
            1 => Self::Fifo,  // DT_FIFO
            2 => Self::CharacterDevice,  // DT_CHR
            6 => Self::BlockDevice,  // DT_BLK
            _ => Self::Unknown,  // DT_UNKNOWN and others
        }
    }

    /// The `S_IF*` bits that stand for this file type; `S_IFMT` for
    /// `Unknown`.
    pub fn as_raw_mode(self) -> (r: RawMode)
        ensures
            r == mode_of_file_type(self),
    {
        match self {
            Self::RegularFile => S_IFREG,
            Self::Directory => S_IFDIR,
            Self::Symlink => S_IFLNK,
            Self::Fifo => S_IFIFO,
            Self::Socket => S_IFSOCK,
            Self::CharacterDevice => S_IFCHR,
            Self::BlockDevice => S_IFBLK,
            Self::Unknown => S_IFMT,
        }
    }
}

/// The `S_IF*` bits of a file type: its file-format code, shifted to bits
/// 12..16.
pub open spec fn mode_of_file_type(t: FileType) -> int {
    match t {
        FileType::RegularFile => 8int * 0x1000,
        FileType::Directory => 4int * 0x1000,
        FileType::Symlink => 10int * 0x1000,
        FileType::Fifo => 1int * 0x1000,
        FileType::Socket => 12int * 0x1000,
        FileType::CharacterDevice => 2int * 0x1000,
        FileType::BlockDevice => 6int * 0x1000,
        FileType::Unknown => 15int * 0x1000,
    }
}

/// A file type's `S_IF*` bits give that file type back.
pub proof fn lemma_file_type_mode_roundtrip(t: FileType)
    ensures
        0 <= mode_of_file_type(t) <= u32::MAX,
        file_type_of_format(format_of_mode(mode_of_file_type(t) as u32)) == t,
{
}

/// Only the `S_IFMT` bits of a mode decide its file type: permission and
/// other bits do not.
pub proof fn lemma_file_type_ignores_permissions(mode: u32, perm: u32)
    requires
        perm & S_IFMT == 0,
    ensures
        format_of_mode(mode | perm) == format_of_mode(mode & S_IFMT),
{
    assert((((mode | perm) as int / 0x1000) % 16) == (((mode & 0o170000u32) as int / 0x1000) % 16))
        by (bit_vector)
        requires
            perm & 0o170000u32 == 0,
    ;
}


/// `POSIX_FADV_*` constants for use with `fadvise`.
#[derive(Debug, Clone, Copy, Eq, PartialEq, Structural)]
pub enum Advice {
    /// `POSIX_FADV_NORMAL`
    Normal,
    /// `POSIX_FADV_SEQUENTIAL`
    Sequential,
    /// `POSIX_FADV_RANDOM`
    Random,
    /// `POSIX_FADV_NOREUSE`
    NoReuse,
    /// `POSIX_FADV_WILLNEED`
    WillNeed,
    /// `POSIX_FADV_DONTNEED`
    DontNeed,
}

/// The `POSIX_FADV_*` number of a piece of advice.
pub open spec fn fadvise_number(a: Advice) -> u32 {
    match a {
        Advice::Normal => 0,
        Advice::Sequential => 2,
        Advice::Random => 1,
        Advice::NoReuse => 5,
        Advice::WillNeed => 3,
        Advice::DontNeed => 4,
    }
}

impl Advice {
    /// The raw `POSIX_FADV_*` value.
    pub fn as_raw(self) -> (r: u32)
        ensures
            r == fadvise_number(self),
    {
        match self {
            Advice::Normal => 0,
            Advice::Sequential => 2,
            Advice::Random => 1,
            Advice::NoReuse => 5,
            Advice::WillNeed => 3,
            Advice::DontNeed => 4,
        }
    }
}

} // verus!
