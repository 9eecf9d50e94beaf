//! The executable's thread-local-storage and stack requirements, read from
//! its program headers.
use crate::elf::{
    addr_add, addr_sub, last_of_type, lemma_of_type, ElfPhdr, PT_GNU_STACK, PT_PHDR, PT_TLS,
};
use vstd::prelude::*;

verus! {

/// The values that `exe_headers` returns.
#[derive(Clone, Copy, Debug, PartialEq, Eq, Structural)]
pub struct ExeHeaders {
    /// The base address of the TLS segment.
    pub addr: usize,
    /// The size of the explicitly initialized data.
    pub file_size: usize,
    /// The segment is zero-extended out to this size.
    pub mem_size: usize,
    /// The required alignment for the TLS segment.
    pub align: usize,
    /// The requested minimum size for stacks.
    pub stack_size: usize,
}

/// The load base of the executable: the address of its program headers
/// less the address that its `PT_PHDR` header records for them; null when
/// there is no `PT_PHDR` header.
pub open spec fn load_base(phdrs_addr: usize, phdrs: Seq<ElfPhdr>) -> usize {
    match last_of_type(phdrs, phdrs.len() as int, PT_PHDR) {
        Some(i) => addr_sub(phdrs_addr, phdrs[i].p_vaddr),
        None => 0,
    }
}

/// The executable's TLS segment and stack size, from its program headers
/// `phdrs`, which lie at address `phdrs_addr`. The executable must have a
/// `PT_TLS` header; the last `PT_PHDR`, `PT_TLS` and `PT_GNU_STACK` headers
/// are the ones that count, and the stack size is 0 without a
/// `PT_GNU_STACK` header.
pub fn exe_headers(phdrs_addr: usize, phdrs: &[ElfPhdr]) -> (h: ExeHeaders)
    requires
        last_of_type(phdrs@, phdrs@.len() as int, PT_TLS) is Some,
    ensures
        ({
            let t = phdrs@[last_of_type(phdrs@, phdrs@.len() as int, PT_TLS)->0];
            &&& h.addr == addr_add(load_base(phdrs_addr, phdrs@), t.p_vaddr)
            &&& h.file_size == t.p_filesz
            &&& h.mem_size == t.p_memsz
            &&& h.align == t.p_align
            &&& h.stack_size == match last_of_type(phdrs@, phdrs@.len() as int, PT_GNU_STACK) {
                Some(i) => phdrs@[i].p_memsz,
                None => 0,
            }
        }),
{
    let mut base: usize = 0;
    let mut tls: Option<usize> = None;
    let mut stack_size: usize = 0;
    let mut i: usize = 0;
    while i < phdrs.len()
        invariant
            i <= phdrs@.len(),
            base == match last_of_type(phdrs@, i as int, PT_PHDR) {
                Some(k) => addr_sub(phdrs_addr, phdrs@[k].p_vaddr),
                None => 0usize,
            },
            tls == match last_of_type(phdrs@, i as int, PT_TLS) {
                Some(k) => Some(k as usize),
                None => None::<usize>,
            },
            tls matches Some(k) ==> k < phdrs@.len(),
            stack_size == match last_of_type(phdrs@, i as int, PT_GNU_STACK) {
                Some(k) => phdrs@[k].p_memsz,
                None => 0usize,
            },
        decreases phdrs.len() - i,
    {
        let phdr = phdrs[i];
        proof {
            lemma_of_type(phdrs@, i as int, PT_TLS);
        }
        if phdr.p_type == PT_PHDR {
            base = phdrs_addr.wrapping_sub(phdr.p_vaddr);
        }
        if phdr.p_type == PT_TLS {
            tls = Some(i);
        }
        if phdr.p_type == PT_GNU_STACK {
            stack_size = phdr.p_memsz;
        }
        i = i + 1;
    }
    proof {
        lemma_of_type(phdrs@, phdrs@.len() as int, PT_TLS);
        lemma_of_type(phdrs@, phdrs@.len() as int, PT_GNU_STACK);
    }
    let t = match tls {
        Some(k) => phdrs[k],
        None => {
            assert(false);
            phdrs[0]
        },
    };
    ExeHeaders {
        addr: base.wrapping_add(t.p_vaddr),
        file_size: t.p_filesz,
        mem_size: t.p_memsz,
        align: t.p_align,
        stack_size,
    }
}

} // verus!
