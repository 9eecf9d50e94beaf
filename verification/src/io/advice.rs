//! Memory-use advice for `madvise`.
use vstd::prelude::*;

verus! {

/// `POSIX_MADV_*` constants for use with `madvise`.
#[derive(Debug, Clone, Copy, Eq, PartialEq, Structural)]
pub enum Advice {
    /// `POSIX_MADV_NORMAL`
    Normal,
    /// `POSIX_MADV_SEQUENTIAL`
    Sequential,
    /// `POSIX_MADV_RANDOM`
    Random,
    /// `POSIX_MADV_WILLNEED`
    WillNeed,
    /// `MADV_DONTNEED`
    LinuxDontNeed,
    /// `MADV_FREE`
    LinuxFree,
    /// `MADV_REMOVE`
    LinuxRemove,
    /// `MADV_DONTFORK`
    LinuxDontFork,
    /// `MADV_DOFORK`
    LinuxDoFork,
    /// `MADV_HWPOISON`
    LinuxHwPoison,
    /// `MADV_SOFT_OFFLINE`
    LinuxSoftOffline,
    /// `MADV_MERGEABLE`
    LinuxMergeable,
    /// `MADV_UNMERGEABLE`
    LinuxUnmergeable,
    /// `MADV_HUGEPAGE`
    LinuxHugepage,
    /// `MADV_NOHUGEPAGE`
    LinuxNoHugepage,
    /// `MADV_DONTDUMP`
    LinuxDontDump,
    /// `MADV_DODUMP`
    LinuxDoDump,
    /// `MADV_WIPEONFORK`
    LinuxWipeOnFork,
    /// `MADV_KEEPONFORK`
    LinuxKeepOnFork,
    /// `MADV_COLD`
    LinuxCold,
    /// `MADV_PAGEOUT`
    LinuxPageOut,
}

/// The `MADV_*` number of a piece of advice.
pub open spec fn madvise_number(a: Advice) -> u32 {
    match a {
        Advice::Normal => 0,
        Advice::Sequential => 2,
        Advice::Random => 1,
        Advice::WillNeed => 3,
        Advice::LinuxDontNeed => 4,
        Advice::LinuxFree => 8,
        Advice::LinuxRemove => 9,
        Advice::LinuxDontFork => 10,
        Advice::LinuxDoFork => 11,
        Advice::LinuxHwPoison => 100,
        Advice::LinuxSoftOffline => 101,
        Advice::LinuxMergeable => 12,
        Advice::LinuxUnmergeable => 13,
        Advice::LinuxHugepage => 14,
        Advice::LinuxNoHugepage => 15,
        Advice::LinuxDontDump => 16,
        Advice::LinuxDoDump => 17,
        Advice::LinuxWipeOnFork => 18,
        Advice::LinuxKeepOnFork => 19,
        Advice::LinuxCold => 20,
        Advice::LinuxPageOut => 21,
    }
}

impl Advice {
    /// The raw `MADV_*` value.
    pub fn as_raw(self) -> (r: u32)
        ensures
            r == madvise_number(self),
    {
        match self {
            Advice::Normal => 0,
            Advice::Sequential => 2,
            Advice::Random => 1,
            Advice::WillNeed => 3,
            Advice::LinuxDontNeed => 4,
            Advice::LinuxFree => 8,
            Advice::LinuxRemove => 9,
            Advice::LinuxDontFork => 10,
            Advice::LinuxDoFork => 11,
            Advice::LinuxHwPoison => 100,
            Advice::LinuxSoftOffline => 101,
            Advice::LinuxMergeable => 12,
            Advice::LinuxUnmergeable => 13,
            Advice::LinuxHugepage => 14,
            Advice::LinuxNoHugepage => 15,
            Advice::LinuxDontDump => 16,
            Advice::LinuxDoDump => 17,
            Advice::LinuxWipeOnFork => 18,
            Advice::LinuxKeepOnFork => 19,
            Advice::LinuxCold => 20,
            Advice::LinuxPageOut => 21,
        }
    }
}

} // verus!
