//! ELF definitions for 64-bit little-endian images, as the vDSO and the
//! executable's program headers use them.
use vstd::prelude::*;

verus! {

/// `PT_LOAD`
pub const PT_LOAD: u32 = 1;

/// `PT_DYNAMIC`
pub const PT_DYNAMIC: u32 = 2;

/// `PT_INTERP`
pub const PT_INTERP: u32 = 3;

/// `PT_PHDR`
pub const PT_PHDR: u32 = 6;

/// `PT_TLS`
pub const PT_TLS: u32 = 7;

/// `PT_GNU_STACK`
pub const PT_GNU_STACK: u32 = 0x6474e551;

/// `PT_GNU_RELRO`
pub const PT_GNU_RELRO: u32 = 0x6474e552;

/// `PF_X`
pub const PF_X: u32 = 1;

/// `PF_W`
pub const PF_W: u32 = 2;

/// `PF_R`
pub const PF_R: u32 = 4;

/// Address arithmetic that wraps around: `x + y` modulo the address space.
pub open spec fn addr_add(x: usize, y: usize) -> usize {
    if x + y > usize::MAX {
        (x + y - usize::MAX - 1) as usize
    } else {
        (x + y) as usize
    }
}

/// Address arithmetic that wraps around: `x - y` modulo the address space.
pub open spec fn addr_sub(x: usize, y: usize) -> usize {
    if x - y < 0 {
        (x - y + usize::MAX + 1) as usize
    } else {
        (x - y) as usize
    }
}

/// `Elf64_Phdr`: a program header.
#[derive(Clone, Copy, Debug, PartialEq, Eq, Structural)]
pub struct ElfPhdr {
    /// `p_type`
    pub p_type: u32,
    /// `p_flags`
    pub p_flags: u32,
    /// `p_offset`
    pub p_offset: usize,
    /// `p_vaddr`
    pub p_vaddr: usize,
    /// `p_paddr`
    pub p_paddr: usize,
    /// `p_filesz`
    pub p_filesz: usize,
    /// `p_memsz`
    pub p_memsz: usize,
    /// `p_align`
    pub p_align: usize,
}

/// The index of the first program header of type `ty` among the first `n`.
pub open spec fn first_of_type(phdrs: Seq<ElfPhdr>, n: int, ty: u32) -> Option<int>
    decreases n,
{
    if n <= 0 {
        None
    } else {
        match first_of_type(phdrs, n - 1, ty) {
            Some(i) => Some(i),
            None => if phdrs[n - 1].p_type == ty {
                Some(n - 1)
            } else {
                None
            },
        }
    }
}

/// The index of the last program header of type `ty` among the first `n`.
pub open spec fn last_of_type(phdrs: Seq<ElfPhdr>, n: int, ty: u32) -> Option<int>
    decreases n,
{
    if n <= 0 {
        None
    } else if phdrs[n - 1].p_type == ty {
        Some(n - 1)
    } else {
        last_of_type(phdrs, n - 1, ty)
    }
}

/// Once a header of the type is among the first `m`, the first of them
/// stays the first among any more headers.
pub proof fn lemma_first_of_type_stable(phdrs: Seq<ElfPhdr>, m: int, n: int, ty: u32)
    requires
        0 <= m <= n,
        first_of_type(phdrs, m, ty) is Some,
    ensures
        first_of_type(phdrs, n, ty) == first_of_type(phdrs, m, ty),
    decreases n - m,
{
    if n > m {
        lemma_first_of_type_stable(phdrs, m, n - 1, ty);
    }
}

/// `first_of_type` and `last_of_type` pick headers of the type asked for,
/// among the first `n`, and find one whenever there is one.
pub proof fn lemma_of_type(phdrs: Seq<ElfPhdr>, n: int, ty: u32)
    requires
        0 <= n <= phdrs.len(),
    ensures
        last_of_type(phdrs, n, ty) matches Some(i) ==> 0 <= i < n && phdrs[i].p_type == ty,
        first_of_type(phdrs, n, ty) matches Some(i) ==> 0 <= i < n && phdrs[i].p_type == ty,
        last_of_type(phdrs, n, ty) is None <==> first_of_type(phdrs, n, ty) is None,
        last_of_type(phdrs, n, ty) is None ==> forall|i: int|
            0 <= i < n ==> phdrs[i].p_type != ty,
    decreases n,
{
    if n > 0 {
        lemma_of_type(phdrs, n - 1, ty);
    }
}

} // verus!
