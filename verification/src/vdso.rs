//! Parse the Linux vDSO: the ELF image that the kernel maps into every
//! process, holding fast implementations of some system calls.
//!
//! The image is read as the bytes of memory from its load address `base`
//! on: a read at address `a` is a read of `image[a - base]`. A read outside
//! of `image` is refused, and parsing then fails, as for an image that does
//! not conform to the expectations below.
use crate::bytes::{read_le16, read_le32, read_le64, read_u16_le, read_u32_le, read_u64_le};
use crate::elf::{
    addr_add, addr_sub, first_of_type, last_of_type, lemma_first_of_type_stable, lemma_of_type,
    ElfPhdr, PF_R, PF_W, PF_X,
    PT_DYNAMIC, PT_GNU_RELRO, PT_INTERP, PT_LOAD,
};
use vstd::prelude::*;

verus! {

/// One step of the ELF hash over a name's byte `b`.
pub open spec fn elf_hash_step(h: u32, b: u8) -> u32 {
    let h1 = (((h << 4u32) as int + b as int) % 0x1_0000_0000) as u32;
    let g = h1 & 0xf000_0000u32;
    let h2 = if g != 0 {
        h1 ^ (g >> 24u32)
    } else {
        h1
    };
    h2 & !g
}

/// The ELF hash of a name, as the ELF specification defines it.
pub open spec fn elf_hash_of(name: Seq<u8>) -> u32
    decreases name.len(),
{
    if name.len() == 0 {
        0
    } else {
        elf_hash_step(elf_hash_of(name.drop_last()), name.last())
    }
}

/// The ELF hash of `name`, the bytes of a C string without its NUL.
pub fn elf_hash(name: &[u8]) -> (h: u32)
    ensures
        h == elf_hash_of(name@),
{
    let mut h: u32 = 0;
    let mut i: usize = 0;
    while i < name.len()
        invariant
            i <= name@.len(),
            h == elf_hash_of(name@.subrange(0, i as int)),
        decreases name.len() - i,
    {
        let b = name[i];
        let ghost prev = name@.subrange(0, i as int);
        h = (h << 4u32).wrapping_add(b as u32);
        let g = h & 0xf000_0000u32;
        if g != 0 {
            h = h ^ (g >> 24u32);
        }
        h = h & !g;
        i = i + 1;
        assert(name@.subrange(0, i as int).drop_last() == prev);
    }
    assert(name@.subrange(0, name@.len() as int) == name@);
    h
}

/// Whether `value` may be taken as the address of an object of `size`
/// bytes aligned to `align`: it is not null, the object does not run past
/// the end of the address space, and it is aligned.
pub open spec fn valid_pointer(value: usize, size: usize, align: usize) -> bool {
    value != 0 && value + size <= usize::MAX && value % align == 0
}

/// Cast `value` to the address of an object of `size` bytes aligned to
/// `align`, checking it for validity.
pub fn make_pointer(value: usize, size: usize, align: usize) -> (r: Option<usize>)
    requires
        align > 0,
    ensures
        r is Some <==> valid_pointer(value, size, align),
        r matches Some(p) ==> p == value,
{
    if value == 0 || value.checked_add(size).is_none() || value % align != 0 {
        return None;
    }
    Some(value)
}

/// The size of `Elf64_Ehdr`.
pub const SIZEOF_EHDR: usize = 64;

/// The size of `Elf64_Phdr`.
pub const SIZEOF_PHDR: usize = 56;

/// `EI_CLASS`, `ELFCLASS64`
pub const ELFCLASS: u8 = 2;

/// `EI_DATA`, `ELFDATA2LSB`
pub const ELFDATA: u8 = 1;

/// `EV_CURRENT`
pub const EV_CURRENT: u8 = 1;

/// `ELFOSABI_SYSV`
pub const ELFOSABI_SYSV: u8 = 0;

/// `ELFOSABI_LINUX`
pub const ELFOSABI_LINUX: u8 = 3;

/// `ELFABIVERSION`
pub const ELFABIVERSION: u8 = 0;

/// `ET_DYN`
pub const ET_DYN: u16 = 3;

/// `EM_X86_64`: the machine the vDSO must be built for.
pub const EM_CURRENT: u16 = 62;

/// `PN_XNUM`: the marker of an extended number of program headers.
pub const PN_XNUM: u16 = 0xffff;

/// Whether `image`, the memory at `base`, starts with an ELF header that the
/// vDSO parser accepts: at a valid address, with the ELF magic, 64-bit
/// little-endian class and data, a System V or Linux ABI of version 0, a
/// shared-object type for this machine, the current version with the
/// standard header sizes, a normal count of program headers, and program
/// headers that do not overlap the ELF header.
pub open spec fn ehdr_ok(base: usize, img: Seq<u8>) -> bool {
    &&& valid_pointer(base, SIZEOF_EHDR, 8)
    &&& img.len() >= SIZEOF_EHDR
    &&& img[0] == 0x7f && img[1] == 0x45 && img[2] == 0x4c && img[3] == 0x46
    &&& img[4] == ELFCLASS
    &&& img[5] == ELFDATA
    &&& (img[7] == ELFOSABI_SYSV || img[7] == ELFOSABI_LINUX)
    &&& img[8] == ELFABIVERSION
    &&& read_le16(img, 16) == ET_DYN
    &&& read_le16(img, 18) == EM_CURRENT
    &&& img[6] == EV_CURRENT
    &&& read_le16(img, 52) == SIZEOF_EHDR
    &&& read_le16(img, 54) == SIZEOF_PHDR
    &&& read_le16(img, 56) != PN_XNUM
    &&& read_le64(img, 32) >= SIZEOF_EHDR
}

/// `e_phoff`: where the program headers start, from the ELF header.
pub open spec fn ehdr_phoff(img: Seq<u8>) -> usize {
    read_le64(img, 32) as usize
}

/// `e_phnum`: the number of program headers.
pub open spec fn ehdr_phnum(img: Seq<u8>) -> u16 {
    read_le16(img, 56) as u16
}

/// Check the ELF header of the image at `base`, and return where its
/// program headers start and how many there are.
pub fn check_ehdr(base: usize, image: &[u8]) -> (r: Option<(usize, u16)>)
    ensures
        r is Some <==> ehdr_ok(base, image@),
        r matches Some(h) ==> h == (ehdr_phoff(image@), ehdr_phnum(image@)),
{
    if make_pointer(base, SIZEOF_EHDR, 8).is_none() || image.len() < SIZEOF_EHDR {
        return None;
    }
    if image[0] != 0x7f || image[1] != 0x45 || image[2] != 0x4c || image[3] != 0x46 {
        return None;  // Wrong ELF magic
    }
    if image[4] != ELFCLASS {
        return None;  // Wrong ELF class
    }
    if image[5] != ELFDATA {
        return None;  // Wrong ELF data
    }
    if !(image[7] == ELFOSABI_SYSV || image[7] == ELFOSABI_LINUX) {
        return None;  // Unrecognized ELF OS ABI
    }
    if image[8] != ELFABIVERSION {
        return None;  // Unrecognized ELF ABI version
    }
    if read_u16_le(image, 16) != ET_DYN {
        return None;  // Wrong ELF type
    }
    // The machine must be the one running, which catches running under an
    // emulator.
    if read_u16_le(image, 18) != EM_CURRENT {
        return None;  // Wrong machine type
    }
    // An extended ELF would need adjusting.
    if image[6] != EV_CURRENT || read_u16_le(image, 52) as usize != SIZEOF_EHDR || read_u16_le(
        image,
        54,
    ) as usize != SIZEOF_PHDR {
        return None;
    }
    // Extra-large numbers of segments are not supported.
    let phnum = read_u16_le(image, 56);
    if phnum == PN_XNUM {
        return None;
    }
    // A zero `e_phoff` more likely means zeroed memory than an ELF header
    // that aliases the program headers.
    let phoff = read_u64_le(image, 32);
    if phoff < SIZEOF_EHDR as u64 {
        return None;
    }
    Some((phoff as usize, phnum))
}

/// The program header in `img` at offset `off`.
pub open spec fn phdr_at(img: Seq<u8>, off: int) -> ElfPhdr {
    ElfPhdr {
        p_type: read_le32(img, off) as u32,
        p_flags: read_le32(img, off + 4) as u32,
        p_offset: read_le64(img, off + 8) as usize,
        p_vaddr: read_le64(img, off + 16) as usize,
        p_paddr: read_le64(img, off + 24) as usize,
        p_filesz: read_le64(img, off + 32) as usize,
        p_memsz: read_le64(img, off + 40) as usize,
        p_align: read_le64(img, off + 48) as usize,
    }
}

/// The `phnum` program headers at offset `phoff` of `img`.
pub open spec fn phdrs_of(img: Seq<u8>, phoff: int, phnum: int) -> Seq<ElfPhdr> {
    Seq::new(phnum as nat, |i: int| phdr_at(img, phoff + SIZEOF_PHDR * i))
}

/// Read the program header at offset `off` of `image`.
pub fn read_phdr(image: &[u8], off: usize) -> (p: ElfPhdr)
    requires
        off + SIZEOF_PHDR <= image@.len(),
    ensures
        p == phdr_at(image@, off as int),
{
    let len = image.len();
    assert(off + 56 <= len);
    #[verifier::truncate]
    let p_offset = read_u64_le(image, off + 8) as usize;
    #[verifier::truncate]
    let p_vaddr = read_u64_le(image, off + 16) as usize;
    #[verifier::truncate]
    let p_paddr = read_u64_le(image, off + 24) as usize;
    #[verifier::truncate]
    let p_filesz = read_u64_le(image, off + 32) as usize;
    #[verifier::truncate]
    let p_memsz = read_u64_le(image, off + 40) as usize;
    #[verifier::truncate]
    let p_align = read_u64_le(image, off + 48) as usize;
    ElfPhdr {
        p_type: read_u32_le(image, off),
        p_flags: read_u32_le(image, off + 4),
        p_offset,
        p_vaddr,
        p_paddr,
        p_filesz,
        p_memsz,
        p_align,
    }
}

/// What the program headers give: the end of the loaded segment, the
/// difference between load addresses and recorded addresses, and the
/// dynamic table with its number of entries.
#[derive(Clone, Copy, Debug, PartialEq, Eq, Structural)]
pub struct PhdrInfo {
    /// The end of the `PT_LOAD` segment.
    pub load_end: usize,
    /// The load address less the recorded address.
    pub load_offset: usize,
    /// The address of the dynamic table.
    pub dyn_addr: usize,
    /// The number of entries the dynamic table has room for.
    pub num_dyn: usize,
}

/// The size of `Elf64_Dyn`.
pub const SIZEOF_DYN: usize = 16;

/// Whether the first `PT_LOAD` segment `p` is acceptable: readable and
/// executable, as it holds the symbol table and the function bodies, and
/// its end an address.
pub open spec fn load_ok(base: usize, p: ElfPhdr) -> bool {
    &&& p.p_flags & (PF_R | PF_X) == PF_R | PF_X
    &&& p.p_offset + p.p_memsz <= usize::MAX
    &&& base + (p.p_offset + p.p_memsz) <= usize::MAX
}

/// Whether the `PT_DYNAMIC` header `p` is acceptable: its table does not
/// overlap the ELF header, and lies at a valid address.
pub open spec fn dynamic_ok(base: usize, p: ElfPhdr) -> bool {
    &&& p.p_offset >= SIZEOF_EHDR
    &&& base + p.p_offset <= usize::MAX
    &&& valid_pointer((base + p.p_offset) as usize, SIZEOF_DYN, 8)
}

/// Whether the program headers are acceptable: they lie at a valid address
/// within the image; no segment is writable, and none is an interpreter or
/// RELRO segment, which mark a user ELF image rather than the kernel vDSO;
/// there is a `PT_LOAD` segment, the first of which is acceptable; and there
/// is a dynamic table, each of whose headers is acceptable.
pub open spec fn phdrs_ok(base: usize, img: Seq<u8>, phoff: usize, phnum: u16) -> bool {
    let ph = phdrs_of(img, phoff as int, phnum as int);
    &&& base + phoff <= usize::MAX
    &&& valid_pointer((base + phoff) as usize, SIZEOF_PHDR, 8)
    &&& phoff + SIZEOF_PHDR * phnum <= img.len()
    &&& forall|i: int|
        0 <= i < phnum ==> (#[trigger] ph[i]).p_flags & PF_W == 0 && ph[i].p_type != PT_INTERP
            && ph[i].p_type != PT_GNU_RELRO
    &&& first_of_type(ph, phnum as int, PT_LOAD) matches Some(l) && load_ok(base, ph[l])
    &&& last_of_type(ph, phnum as int, PT_DYNAMIC) is Some
    &&& forall|i: int|
        0 <= i < phnum && (#[trigger] ph[i]).p_type == PT_DYNAMIC ==> dynamic_ok(base, ph[i])
}

/// What acceptable program headers give.
pub open spec fn phdr_info(base: usize, img: Seq<u8>, phoff: usize, phnum: u16) -> PhdrInfo {
    let ph = phdrs_of(img, phoff as int, phnum as int);
    let l = ph[first_of_type(ph, phnum as int, PT_LOAD)->0];
    let d = ph[last_of_type(ph, phnum as int, PT_DYNAMIC)->0];
    PhdrInfo {
        load_end: (base + (l.p_offset + l.p_memsz)) as usize,
        load_offset: addr_add(base, addr_sub(l.p_offset, l.p_vaddr)),
        dyn_addr: (base + d.p_offset) as usize,
        num_dyn: d.p_memsz / SIZEOF_DYN,
    }
}

/// Whether `a` and `b` are of one length and hold the same bytes outside
/// `lo..hi`.
pub open spec fn same_outside(a: Seq<u8>, b: Seq<u8>, lo: int, hi: int) -> bool {
    &&& a.len() == b.len()
    &&& forall|k: int| 0 <= k < a.len() && !(lo <= k < hi) ==> #[trigger] a[k] == b[k]
}

proof fn lemma_phdr_same(a: Seq<u8>, b: Seq<u8>, off: int)
    requires
        0 <= off,
        off + SIZEOF_PHDR <= a.len(),
        forall|k: int| off <= k < off + SIZEOF_PHDR ==> #[trigger] a[k] == b[k],
    ensures
        phdr_at(a, off) == phdr_at(b, off),
{
}

proof fn lemma_of_type_prefix(p: Seq<ElfPhdr>, q: Seq<ElfPhdr>, n: int, ty: u32)
    requires
        0 <= n,
        forall|j: int| 0 <= j < n ==> #[trigger] p[j] == q[j],
    ensures
        first_of_type(p, n, ty) == first_of_type(q, n, ty),
        last_of_type(p, n, ty) == last_of_type(q, n, ty),
    decreases n,
{
    if n > 0 {
        lemma_of_type_prefix(p, q, n - 1, ty);
        assert(p[n - 1] == q[n - 1]);
    }
}

/// Program headers of other kinds do not matter: appending to the headers
/// one that is not writable and is none of `PT_LOAD`, `PT_DYNAMIC`,
/// `PT_INTERP` and `PT_GNU_RELRO` (such as `PT_NOTE` or
/// `PT_GNU_EH_FRAME`) leaves the scan's acceptance and its result as they
/// were.
#[verifier::spinoff_prover]
pub proof fn lemma_other_header_ignored(
    base: usize,
    img1: Seq<u8>,
    img2: Seq<u8>,
    phoff: usize,
    phnum: u16,
)
    requires
        phnum < 0xffff,
        phoff + SIZEOF_PHDR * (phnum + 1) <= img2.len(),
        same_outside(img1, img2, phoff + SIZEOF_PHDR * phnum, phoff + SIZEOF_PHDR * (phnum + 1)),
        phdr_at(img2, phoff + SIZEOF_PHDR * phnum).p_flags & PF_W == 0,
        phdr_at(img2, phoff + SIZEOF_PHDR * phnum).p_type != PT_LOAD,
        phdr_at(img2, phoff + SIZEOF_PHDR * phnum).p_type != PT_DYNAMIC,
        phdr_at(img2, phoff + SIZEOF_PHDR * phnum).p_type != PT_INTERP,
        phdr_at(img2, phoff + SIZEOF_PHDR * phnum).p_type != PT_GNU_RELRO,
    ensures
        phdrs_ok(base, img2, phoff, (phnum + 1) as u16) == phdrs_ok(base, img1, phoff, phnum),
        phdrs_ok(base, img1, phoff, phnum) ==> phdr_info(base, img2, phoff, (phnum + 1) as u16)
            == phdr_info(base, img1, phoff, phnum),
{
    let n = phnum as int;
    let n2 = (phnum + 1) as u16;
    let ph1 = phdrs_of(img1, phoff as int, n);
    let ph2 = phdrs_of(img2, phoff as int, n2 as int);
    assert(SIZEOF_PHDR * (phnum + 1) == SIZEOF_PHDR * phnum + SIZEOF_PHDR);
    assert forall|j: int| 0 <= j < n implies #[trigger] ph1[j] == ph2[j] by {
        let off = phoff + SIZEOF_PHDR * j;
        assert(SIZEOF_PHDR * j + SIZEOF_PHDR <= SIZEOF_PHDR * phnum) by (nonlinear_arith)
            requires
                j < n,
                n == phnum,
        ;
        assert(0 <= SIZEOF_PHDR * j) by (nonlinear_arith)
            requires
                0 <= j,
        ;
        assert forall|k: int| off <= k < off + SIZEOF_PHDR implies #[trigger] img2[k] == img1[k] by {
            assert(img1[k] == img2[k]);
        }
        lemma_phdr_same(img2, img1, off);
    }
    let new_h = ph2[n];
    assert(new_h == phdr_at(img2, phoff + SIZEOF_PHDR * phnum));
    lemma_of_type_prefix(ph1, ph2, n, PT_LOAD);
    lemma_of_type_prefix(ph1, ph2, n, PT_DYNAMIC);
    lemma_of_type(ph1, n, PT_LOAD);
    lemma_of_type(ph1, n, PT_DYNAMIC);
    assert(first_of_type(ph2, n + 1, PT_LOAD) == first_of_type(ph2, n, PT_LOAD));
    assert(last_of_type(ph2, n + 1, PT_DYNAMIC) == last_of_type(ph2, n, PT_DYNAMIC));
    if phdrs_ok(base, img1, phoff, phnum) {
        assert forall|i: int|
            0 <= i < n2 implies (#[trigger] ph2[i]).p_flags & PF_W == 0 && ph2[i].p_type
            != PT_INTERP && ph2[i].p_type != PT_GNU_RELRO by {
            if i < n {
                assert(ph1[i] == ph2[i]);
            }
        }
        assert forall|i: int|
            0 <= i < n2 && (#[trigger] ph2[i]).p_type == PT_DYNAMIC implies dynamic_ok(
            base,
            ph2[i],
        ) by {
            if i < n {
                assert(ph1[i] == ph2[i]);
            }
        }
        let l = first_of_type(ph1, n, PT_LOAD)->0;
        assert(ph1[l] == ph2[l]);
        let d = last_of_type(ph1, n, PT_DYNAMIC)->0;
        assert(ph1[d] == ph2[d]);
    }
    if phdrs_ok(base, img2, phoff, n2) {
        assert forall|i: int|
            0 <= i < n implies (#[trigger] ph1[i]).p_flags & PF_W == 0 && ph1[i].p_type
            != PT_INTERP && ph1[i].p_type != PT_GNU_RELRO by {
            assert(ph1[i] == ph2[i]);
        }
        assert forall|i: int|
            0 <= i < n && (#[trigger] ph1[i]).p_type == PT_DYNAMIC implies dynamic_ok(base, ph1[i]) by {
            assert(ph1[i] == ph2[i]);
        }
        let l = first_of_type(ph2, n2 as int, PT_LOAD)->0;
        assert(ph1[l] == ph2[l]);
    }
}

/// Scan the program headers of the image at `base` for the load offset and
/// the dynamic table.
#[verifier::spinoff_prover]
#[verifier::rlimit(40)]
pub fn scan_phdrs(base: usize, image: &[u8], phoff: usize, phnum: u16) -> (r: Option<PhdrInfo>)
    ensures
        r is Some <==> phdrs_ok(base, image@, phoff, phnum),
        r matches Some(info) ==> info == phdr_info(base, image@, phoff, phnum),
{
    let ghost ph = phdrs_of(image@, phoff as int, phnum as int);
    let pt_addr = match base.checked_add(phoff) {
        Some(a) => a,
        None => return None,
    };
    if make_pointer(pt_addr, SIZEOF_PHDR, 8).is_none() {
        return None;
    }
    assert(SIZEOF_PHDR * phnum <= 56 * 0xffff) by (nonlinear_arith)
        requires
            phnum <= 0xffff,
    ;
    let table_len = SIZEOF_PHDR * (phnum as usize);
    let len = image.len();
    let table_end = match phoff.checked_add(table_len) {
        Some(e) => e,
        None => return None,
    };
    if table_end > len {
        return None;
    }
    let mut load: Option<usize> = None;
    let mut load_end: usize = 0;
    let mut load_offset: usize = 0;
    let mut dynamic: Option<usize> = None;
    let mut dyn_addr: usize = 0;
    let mut num_dyn: usize = 0;
    let mut i: u16 = 0;
    while i < phnum
        invariant
            i <= phnum,
            ph == phdrs_of(image@, phoff as int, phnum as int),
            table_end == phoff + SIZEOF_PHDR * phnum,
            table_end <= image@.len(),
            phoff + SIZEOF_PHDR * phnum <= image@.len(),
            forall|j: int|
                0 <= j < i ==> (#[trigger] ph[j]).p_flags & PF_W == 0 && ph[j].p_type
                    != PT_INTERP && ph[j].p_type != PT_GNU_RELRO,
            load == match first_of_type(ph, i as int, PT_LOAD) {
                Some(l) => Some(l as usize),
                None => None::<usize>,
            },
            load matches Some(l) ==> l < i && load_ok(base, ph[l as int]) && load_end == base + (
            ph[l as int].p_offset + ph[l as int].p_memsz) && load_offset == addr_add(
                base,
                addr_sub(ph[l as int].p_offset, ph[l as int].p_vaddr),
            ),
            dynamic == match last_of_type(ph, i as int, PT_DYNAMIC) {
                Some(d) => Some(d as usize),
                None => None::<usize>,
            },
            dynamic matches Some(d) ==> d < i && dyn_addr == base + ph[d as int].p_offset
                && num_dyn == ph[d as int].p_memsz / SIZEOF_DYN,
            forall|j: int|
                0 <= j < i && (#[trigger] ph[j]).p_type == PT_DYNAMIC ==> dynamic_ok(base, ph[j]),
        decreases phnum - i,
    {
        proof {
            lemma_of_type(ph, i as int, PT_LOAD);
            lemma_of_type(ph, i as int, PT_DYNAMIC);
            assert(SIZEOF_PHDR * i + SIZEOF_PHDR <= SIZEOF_PHDR * phnum) by (nonlinear_arith)
                requires
                    i < phnum,
            ;
        }
        let phdr = read_phdr(image, phoff + SIZEOF_PHDR * (i as usize));
        assert(phdr == ph[i as int]);
        if phdr.p_flags & PF_W != 0 {
            // Don't trust any vDSO that claims to be loading writable
            // segments into memory.
            return None;
        }
        if phdr.p_type == PT_LOAD && load.is_none() {
            proof {
                assert(first_of_type(ph, i + 1, PT_LOAD) == Some(i as int));
                lemma_first_of_type_stable(ph, i + 1, phnum as int, PT_LOAD);
            }
            // The segment should be readable and executable, because it
            // contains the symbol table and the function bodies.
            if phdr.p_flags & (PF_R | PF_X) != (PF_R | PF_X) {
                return None;
            }
            let end = match phdr.p_offset.checked_add(phdr.p_memsz) {
                Some(e) => e,
                None => return None,
            };
            load_end = match base.checked_add(end) {
                Some(e) => e,
                None => return None,
            };
            load_offset = base.wrapping_add(phdr.p_offset.wrapping_sub(phdr.p_vaddr));
            load = Some(i as usize);
        } else if phdr.p_type == PT_DYNAMIC {
            // A zero `p_offset` more likely means zeroed memory than a
            // dynamic table that aliases the ELF header.
            if phdr.p_offset < SIZEOF_EHDR {
                return None;
            }
            let a = match base.checked_add(phdr.p_offset) {
                Some(a) => a,
                None => return None,
            };
            dyn_addr = match make_pointer(a, SIZEOF_DYN, 8) {
                Some(p) => p,
                None => return None,
            };
            num_dyn = phdr.p_memsz / SIZEOF_DYN;
            dynamic = Some(i as usize);
        } else if phdr.p_type == PT_INTERP || phdr.p_type == PT_GNU_RELRO {
            // An image with an interpreter or RELRO is likely a user ELF
            // image and not the kernel vDSO.
            return None;
        }
        i = i + 1;
    }
    proof {
        lemma_of_type(ph, phnum as int, PT_LOAD);
        lemma_of_type(ph, phnum as int, PT_DYNAMIC);
    }
    match (load, dynamic) {
        (Some(_), Some(_)) => Some(PhdrInfo { load_end, load_offset, dyn_addr, num_dyn }),
        _ => None,
    }
}

/// `DT_NULL`: the entry that ends the dynamic table.
pub const DT_NULL: u64 = 0;

/// `DT_HASH`: the address of the symbol hash table.
pub const DT_HASH: u64 = 4;

/// `DT_STRTAB`: the address of the string table.
pub const DT_STRTAB: u64 = 5;

/// `DT_SYMTAB`: the address of the symbol table.
pub const DT_SYMTAB: u64 = 6;

/// `DT_SYMENT`: the size of a symbol-table entry.
pub const DT_SYMENT: u64 = 11;

/// `DT_VERSYM`: the address of the symbol version table.
pub const DT_VERSYM: u64 = 0x6ffffff0;

/// `DT_VERDEF`: the address of the version definition table.
pub const DT_VERDEF: u64 = 0x6ffffffc;

/// The size of `Elf64_Sym`.
pub const SIZEOF_SYM: usize = 24;

/// The size of `Elf64_Verdef`.
pub const SIZEOF_VERDEF: usize = 20;

/// A parsed vDSO: where it is loaded and where its symbol, string, hash and
/// version tables are. A table address of 0 means that there is no such
/// table.
#[derive(Clone, Copy, Debug, PartialEq, Eq, Structural)]
pub struct Vdso {
    /// The load address.
    pub load_addr: usize,
    /// The end of the `PT_LOAD` segment.
    pub load_end: usize,
    /// The load address less the recorded address.
    pub load_offset: usize,
    /// The symbol table.
    pub symtab: usize,
    /// The string table.
    pub symstrings: usize,
    /// The hash buckets.
    pub bucket: usize,
    /// The hash chains.
    pub chain: usize,
    /// The number of hash buckets.
    pub nbucket: u32,
    /// The symbol version table.
    pub versym: usize,
    /// The version definition table.
    pub verdef: usize,
}

/// The tag of dynamic-table entry `i`, the table being at offset `doff` of
/// `img`.
pub open spec fn dyn_tag(img: Seq<u8>, doff: int, i: int) -> int {
    read_le64(img, doff + SIZEOF_DYN * i)
}

/// The value of dynamic-table entry `i`.
pub open spec fn dyn_val(img: Seq<u8>, doff: int, i: int) -> usize {
    read_le64(img, doff + SIZEOF_DYN * i + 8) as usize
}

/// Whether the address that the value `val` of a dynamic entry gives,
/// `val + load_offset`, is a valid address of an object of `size` bytes
/// aligned to `align`.
pub open spec fn target_ok(val: usize, load_offset: usize, size: usize, align: usize) -> bool {
    val + load_offset <= usize::MAX && valid_pointer((val + load_offset) as usize, size, align)
}

/// The address that the value `val` of a dynamic entry gives.
pub open spec fn target(val: usize, load_offset: usize) -> usize {
    (val + load_offset) as usize
}

/// Whether dynamic-table entry `i` is acceptable: a table address it gives
/// is valid for its table, and a symbol-entry size it gives is that of
/// `Elf64_Sym`.
pub open spec fn dyn_entry_ok(img: Seq<u8>, doff: int, i: int, load_offset: usize) -> bool {
    let t = dyn_tag(img, doff, i);
    let v = dyn_val(img, doff, i);
    &&& t == DT_STRTAB ==> target_ok(v, load_offset, 1, 1)
    &&& t == DT_SYMTAB ==> target_ok(v, load_offset, SIZEOF_SYM, 8)
    &&& t == DT_HASH ==> target_ok(v, load_offset, 4, 4)
    &&& t == DT_VERSYM ==> target_ok(v, load_offset, 2, 2)
    &&& t == DT_VERDEF ==> target_ok(v, load_offset, SIZEOF_VERDEF, 4)
    &&& t == DT_SYMENT ==> v == SIZEOF_SYM
}

/// The index of the first `DT_NULL` entry among the first `n`.
pub open spec fn first_null(img: Seq<u8>, doff: int, n: int) -> Option<int>
    decreases n,
{
    if n <= 0 {
        None
    } else {
        match first_null(img, doff, n - 1) {
            Some(i) => Some(i),
            None => if dyn_tag(img, doff, n - 1) == DT_NULL {
                Some(n - 1)
            } else {
                None
            },
        }
    }
}

/// The index of the last entry with tag `tag` among the first `n`.
pub open spec fn last_tag(img: Seq<u8>, doff: int, n: int, tag: u64) -> Option<int>
    decreases n,
{
    if n <= 0 {
        None
    } else if dyn_tag(img, doff, n - 1) == tag {
        Some(n - 1)
    } else {
        last_tag(img, doff, n - 1, tag)
    }
}

/// The number of dynamic-table entries that lie in the image: at most
/// `num_dyn`.
pub open spec fn readable_dyn(img: Seq<u8>, doff: int, num_dyn: usize) -> int {
    if doff > img.len() {
        0
    } else if num_dyn <= (img.len() - doff) / SIZEOF_DYN as int {
        num_dyn as int
    } else {
        (img.len() - doff) / SIZEOF_DYN as int
    }
}

/// The table address that the last entry with `tag` gives, or 0 without
/// one.
pub open spec fn table_addr(img: Seq<u8>, doff: int, n: int, tag: u64, load_offset: usize) -> usize {
    match last_tag(img, doff, n, tag) {
        Some(i) => target(dyn_val(img, doff, i), load_offset),
        None => 0,
    }
}

/// Whether the dynamic table that the program headers give is acceptable:
/// it ends with a `DT_NULL` entry within the image; every entry before it
/// is acceptable; it gives a string table, a symbol table and a hash table;
/// and the hash table's header lies in the image, with its buckets and
/// chains at addresses.
pub open spec fn dynamic_table_ok(base: usize, img: Seq<u8>, info: PhdrInfo) -> bool {
    let doff = info.dyn_addr - base;
    let m = readable_dyn(img, doff, info.num_dyn);
    &&& info.dyn_addr >= base
    &&& first_null(img, doff, m) matches Some(n) && {
        let hash = table_addr(img, doff, n, DT_HASH, info.load_offset);
        &&& forall|i: int| 0 <= i < n ==> #[trigger] dyn_entry_ok(img, doff, i, info.load_offset)
        &&& last_tag(img, doff, n, DT_STRTAB) is Some
        &&& last_tag(img, doff, n, DT_SYMTAB) is Some
        &&& last_tag(img, doff, n, DT_HASH) is Some
        &&& hash >= base
        &&& hash - base + 4 <= img.len()
        &&& hash + 4 * (read_le32(img, hash - base) + 2) <= usize::MAX
    }
}

/// The parsed vDSO that an acceptable dynamic table gives: the tables of
/// the last entries of their tags before `DT_NULL`, no version table
/// without a version definition table, and the hash buckets and chains
/// after the two-word hash-table header.
pub open spec fn dynamic_table_vdso(base: usize, img: Seq<u8>, info: PhdrInfo) -> Vdso {
    let doff = info.dyn_addr - base;
    let n = first_null(img, doff, readable_dyn(img, doff, info.num_dyn))->0;
    let hash = table_addr(img, doff, n, DT_HASH, info.load_offset);
    let nbucket = read_le32(img, hash - base);
    let verdef = table_addr(img, doff, n, DT_VERDEF, info.load_offset);
    Vdso {
        load_addr: base,
        load_end: info.load_end,
        load_offset: info.load_offset,
        symtab: table_addr(img, doff, n, DT_SYMTAB, info.load_offset),
        symstrings: table_addr(img, doff, n, DT_STRTAB, info.load_offset),
        bucket: (hash + 8) as usize,
        chain: (hash + 4 * (nbucket + 2)) as usize,
        nbucket: nbucket as u32,
        versym: if verdef == 0 {
            0
        } else {
            table_addr(img, doff, n, DT_VERSYM, info.load_offset)
        },
        verdef,
    }
}

proof fn lemma_first_null(img: Seq<u8>, doff: int, n: int)
    requires
        0 <= n,
    ensures
        first_null(img, doff, n) matches Some(i) ==> 0 <= i < n && dyn_tag(img, doff, i) == DT_NULL
            && forall|j: int| 0 <= j < i ==> dyn_tag(img, doff, j) != DT_NULL,
        first_null(img, doff, n) is None ==> forall|j: int|
            0 <= j < n ==> dyn_tag(img, doff, j) != DT_NULL,
    decreases n,
{
    if n > 0 {
        lemma_first_null(img, doff, n - 1);
    }
}

proof fn lemma_first_null_stable(img: Seq<u8>, doff: int, m: int, n: int)
    requires
        0 <= m <= n,
        first_null(img, doff, m) is Some,
    ensures
        first_null(img, doff, n) == first_null(img, doff, m),
    decreases n - m,
{
    if n > m {
        lemma_first_null_stable(img, doff, m, n - 1);
    }
}

proof fn lemma_last_tag(img: Seq<u8>, doff: int, n: int, tag: u64)
    requires
        0 <= n,
    ensures
        last_tag(img, doff, n, tag) matches Some(i) ==> 0 <= i < n && dyn_tag(img, doff, i) == tag,
    decreases n,
{
    if n > 0 {
        lemma_last_tag(img, doff, n - 1, tag);
    }
}

/// Read the dynamic table that the program headers give, and the header of
/// the hash table that it points to.
pub fn scan_dynamic(base: usize, image: &[u8], info: PhdrInfo) -> (r: Option<Vdso>)
    requires
        info.dyn_addr >= base,
    ensures
        r is Some <==> dynamic_table_ok(base, image@, info),
        r matches Some(v) ==> v == dynamic_table_vdso(base, image@, info),
{
    let len = image.len();
    let doff = info.dyn_addr - base;
    let m: usize = if doff > len {
        0
    } else if info.num_dyn <= (len - doff) / SIZEOF_DYN {
        info.num_dyn
    } else {
        (len - doff) / SIZEOF_DYN
    };
    let ghost img = image@;
    let lo = info.load_offset;
    let mut strtab: usize = 0;
    let mut symtab: usize = 0;
    let mut hash: usize = 0;
    let mut versym: usize = 0;
    let mut verdef: usize = 0;
    let mut i: usize = 0;
    while i < m
        invariant
            i <= m,
            m == readable_dyn(img, doff as int, info.num_dyn),
            img == image@,
            len == img.len(),
            doff == info.dyn_addr - base,
            lo == info.load_offset,
            m > 0 ==> doff + SIZEOF_DYN * m <= len,
            first_null(img, doff as int, i as int) is None,
            forall|j: int| 0 <= j < i ==> #[trigger] dyn_entry_ok(img, doff as int, j, lo),
            strtab == table_addr(img, doff as int, i as int, DT_STRTAB, lo),
            symtab == table_addr(img, doff as int, i as int, DT_SYMTAB, lo),
            hash == table_addr(img, doff as int, i as int, DT_HASH, lo),
            versym == table_addr(img, doff as int, i as int, DT_VERSYM, lo),
            verdef == table_addr(img, doff as int, i as int, DT_VERDEF, lo),
            (strtab != 0) == last_tag(img, doff as int, i as int, DT_STRTAB) is Some,
            (symtab != 0) == last_tag(img, doff as int, i as int, DT_SYMTAB) is Some,
            (hash != 0) == last_tag(img, doff as int, i as int, DT_HASH) is Some,
            (verdef != 0) == last_tag(img, doff as int, i as int, DT_VERDEF) is Some,
        decreases m - i,
    {
        assert(doff + SIZEOF_DYN * i + SIZEOF_DYN <= doff + SIZEOF_DYN * m) by (nonlinear_arith)
            requires
                i < m,
        ;
        let at = doff + SIZEOF_DYN * i;
        let tag = read_u64_le(image, at);
        #[verifier::truncate]
        let val = read_u64_le(image, at + 8) as usize;
        proof {
            lemma_first_null(img, doff as int, i as int);
            lemma_last_tag(img, doff as int, i as int, DT_STRTAB);
            lemma_last_tag(img, doff as int, i as int, DT_SYMTAB);
            lemma_last_tag(img, doff as int, i as int, DT_HASH);
            lemma_last_tag(img, doff as int, i as int, DT_VERSYM);
            lemma_last_tag(img, doff as int, i as int, DT_VERDEF);
        }
        if tag == DT_NULL {
            proof {
                assert(first_null(img, doff as int, i + 1) == Some(i as int));
                lemma_first_null_stable(img, doff as int, i + 1, m as int);
            }
            return finish_vdso(base, image, info, i, strtab, symtab, hash, versym, verdef);
        }
        let t = if tag == DT_STRTAB || tag == DT_SYMTAB || tag == DT_HASH || tag == DT_VERSYM
            || tag == DT_VERDEF {
            let (size, align) = if tag == DT_STRTAB {
                (1usize, 1usize)
            } else if tag == DT_SYMTAB {
                (SIZEOF_SYM, 8usize)
            } else if tag == DT_HASH {
                (4usize, 4usize)
            } else if tag == DT_VERSYM {
                (2usize, 2usize)
            } else {
                (SIZEOF_VERDEF, 4usize)
            };
            let v = match val.checked_add(lo) {
                Some(v) => v,
                None => {
                    proof {
                        lemma_entry_refused(img, doff as int, i as int, m as int, lo);
                    }
                    return None;
                },
            };
            match make_pointer(v, size, align) {
                Some(p) => p,
                None => {
                    proof {
                        lemma_entry_refused(img, doff as int, i as int, m as int, lo);
                    }
                    return None;
                },
            }
        } else {
            0
        };
        if tag == DT_STRTAB {
            strtab = t;
        } else if tag == DT_SYMTAB {
            symtab = t;
        } else if tag == DT_HASH {
            hash = t;
        } else if tag == DT_VERSYM {
            versym = t;
        } else if tag == DT_VERDEF {
            verdef = t;
        } else if tag == DT_SYMENT {
            if val != SIZEOF_SYM {
                proof {
                    lemma_entry_refused(img, doff as int, i as int, m as int, lo);
                }
                return None;
            }
        }
        i = i + 1;
    }
    None
}

/// An entry before the first `DT_NULL` that is not acceptable makes the
/// whole table unacceptable.
proof fn lemma_entry_refused(img: Seq<u8>, doff: int, i: int, m: int, lo: usize)
    requires
        0 <= i < m,
        first_null(img, doff, i) is None,
        dyn_tag(img, doff, i) != DT_NULL,
        !dyn_entry_ok(img, doff, i, lo),
    ensures
        forall|n: int| #[trigger]
            first_null(img, doff, m) == Some(n) ==> exists|j: int|
                0 <= j < n && !#[trigger] dyn_entry_ok(img, doff, j, lo),
{
    assert forall|n: int| #[trigger]
        first_null(img, doff, m) == Some(n) implies exists|j: int|
        0 <= j < n && !#[trigger] dyn_entry_ok(img, doff, j, lo) by {
        lemma_first_null(img, doff, m);
        lemma_first_null(img, doff, i);
        if n <= i {
            assert(dyn_tag(img, doff, n) == DT_NULL);
        }
        assert(0 <= i < n && !dyn_entry_ok(img, doff, i, lo));
    }
}

/// Whether `t` is a dynamic-table tag that the parser reads: `DT_NULL`,
/// `DT_STRTAB`, `DT_SYMTAB`, `DT_HASH`, `DT_VERSYM`, `DT_VERDEF` or
/// `DT_SYMENT`.
pub open spec fn known_dyn_tag(t: int) -> bool {
    t == DT_NULL || t == DT_STRTAB || t == DT_SYMTAB || t == DT_HASH || t == DT_VERSYM || t
        == DT_VERDEF || t == DT_SYMENT
}

/// An entry of a tag that the parser does not read is acceptable, whatever
/// its value.
pub proof fn lemma_unknown_entry_acceptable(img: Seq<u8>, doff: int, i: int, load_offset: usize)
    requires
        !known_dyn_tag(dyn_tag(img, doff, i)),
    ensures
        dyn_entry_ok(img, doff, i, load_offset),
{
}

proof fn lemma_entry_same(a: Seq<u8>, b: Seq<u8>, doff: int, j: int)
    requires
        0 <= doff + SIZEOF_DYN * j,
        doff + SIZEOF_DYN * j + SIZEOF_DYN <= a.len(),
        forall|k: int|
            doff + SIZEOF_DYN * j <= k < doff + SIZEOF_DYN * j + SIZEOF_DYN ==> #[trigger] a[k]
                == b[k],
    ensures
        dyn_tag(a, doff, j) == dyn_tag(b, doff, j),
        dyn_val(a, doff, j) == dyn_val(b, doff, j),
{
}

proof fn lemma_first_null_same(a: Seq<u8>, b: Seq<u8>, doff: int, n: int)
    requires
        forall|j: int| 0 <= j < n ==> (dyn_tag(a, doff, j) == DT_NULL) == (dyn_tag(b, doff, j) == DT_NULL),
    ensures
        first_null(a, doff, n) == first_null(b, doff, n),
    decreases n,
{
    if n > 0 {
        lemma_first_null_same(a, b, doff, n - 1);
    }
}

proof fn lemma_table_addr_same(a: Seq<u8>, b: Seq<u8>, doff: int, n: int, tag: u64, lo: usize)
    requires
        forall|j: int| 0 <= j < n ==> (dyn_tag(a, doff, j) == tag) == (dyn_tag(b, doff, j) == tag),
        forall|j: int| 0 <= j < n && dyn_tag(a, doff, j) == tag ==> dyn_val(a, doff, j) == dyn_val(b, doff, j),
    ensures
        last_tag(a, doff, n, tag) == last_tag(b, doff, n, tag),
        table_addr(a, doff, n, tag, lo) == table_addr(b, doff, n, tag, lo),
    decreases n,
{
    if n > 0 {
        lemma_table_addr_same(a, b, doff, n - 1, tag, lo);
    }
}

/// The address of the hash table that an acceptable dynamic table gives.
pub open spec fn hash_table_addr(base: usize, img: Seq<u8>, info: PhdrInfo) -> usize {
    let doff = info.dyn_addr - base;
    let n = first_null(img, doff, readable_dyn(img, doff, info.num_dyn))->0;
    table_addr(img, doff, n, DT_HASH, info.load_offset)
}

/// Entries of tags that the parser does not read (such as `DT_STRSZ`,
/// `DT_SONAME` or `DT_GNU_HASH`) are passed over: putting one in the place
/// of a `DT_SYMENT` entry that gives the right size leaves the table's
/// acceptance and the parsed vDSO as they were, so long as the hash table's
/// header does not lie in that entry.
#[verifier::spinoff_prover]
pub proof fn lemma_unknown_entry_ignored(
    base: usize,
    img1: Seq<u8>,
    img2: Seq<u8>,
    info: PhdrInfo,
    i: int,
)
    requires
        info.dyn_addr >= base,
        0 <= i,
        info.dyn_addr - base + SIZEOF_DYN * i + SIZEOF_DYN <= img1.len(),
        same_outside(
            img1,
            img2,
            info.dyn_addr - base + SIZEOF_DYN * i,
            info.dyn_addr - base + SIZEOF_DYN * i + SIZEOF_DYN,
        ),
        dyn_tag(img1, info.dyn_addr - base, i) == DT_SYMENT,
        dyn_val(img1, info.dyn_addr - base, i) == SIZEOF_SYM,
        !known_dyn_tag(dyn_tag(img2, info.dyn_addr - base, i)),
        hash_table_addr(base, img1, info) - base + 4 <= info.dyn_addr - base + SIZEOF_DYN * i
            || hash_table_addr(base, img1, info) - base >= info.dyn_addr - base + SIZEOF_DYN * i
            + SIZEOF_DYN,
    ensures
        dynamic_table_ok(base, img2, info) == dynamic_table_ok(base, img1, info),
        dynamic_table_ok(base, img1, info) ==> dynamic_table_vdso(base, img2, info)
            == dynamic_table_vdso(base, img1, info),
{
    let doff = info.dyn_addr - base;
    let m = readable_dyn(img1, doff, info.num_dyn);
    let e = doff + SIZEOF_DYN * i;
    assert(readable_dyn(img2, doff, info.num_dyn) == m);
    assert(0 <= m && doff + SIZEOF_DYN * m <= img1.len()) by (nonlinear_arith)
        requires
            m == readable_dyn(img1, doff, info.num_dyn),
            doff >= 0,
            doff + SIZEOF_DYN * i + SIZEOF_DYN <= img1.len(),
            0 <= i,
    ;
    assert forall|j: int| 0 <= j < m && j != i implies dyn_tag(img1, doff, j) == dyn_tag(img2, doff, j)
        && dyn_val(img1, doff, j) == dyn_val(img2, doff, j) by {
        assert(doff + SIZEOF_DYN * j + SIZEOF_DYN <= doff + SIZEOF_DYN * m) by (nonlinear_arith)
            requires
                j < m,
        ;
        assert(SIZEOF_DYN * j + SIZEOF_DYN <= SIZEOF_DYN * i || SIZEOF_DYN * j >= SIZEOF_DYN * i
            + SIZEOF_DYN) by (nonlinear_arith)
            requires
                j != i,
        ;
        assert(0 <= SIZEOF_DYN * j) by (nonlinear_arith)
            requires
                0 <= j,
        ;
        lemma_entry_same(img1, img2, doff, j);
    }
    let known = |j: int| 0 <= j < m && j != i;
    lemma_first_null_same(img1, img2, doff, m);
    lemma_first_null(img1, doff, m);
    let fnull = first_null(img1, doff, m);
    if fnull is Some {
        let n = fnull->0;
        lemma_table_addr_same(img1, img2, doff, n, DT_STRTAB, info.load_offset);
        lemma_table_addr_same(img1, img2, doff, n, DT_SYMTAB, info.load_offset);
        lemma_table_addr_same(img1, img2, doff, n, DT_HASH, info.load_offset);
        lemma_table_addr_same(img1, img2, doff, n, DT_VERSYM, info.load_offset);
        lemma_table_addr_same(img1, img2, doff, n, DT_VERDEF, info.load_offset);
        assert forall|j: int|
            #![trigger dyn_entry_ok(img1, doff, j, info.load_offset)]
            #![trigger dyn_entry_ok(img2, doff, j, info.load_offset)]
            0 <= j < n implies dyn_entry_ok(img1, doff, j, info.load_offset) == dyn_entry_ok(
            img2,
            doff,
            j,
            info.load_offset,
        ) by {
            if j == i {
                lemma_unknown_entry_acceptable(img2, doff, i, info.load_offset);
            } else {
                assert(known(j));
            }
        }
        let hash = table_addr(img1, doff, n, DT_HASH, info.load_offset);
        assert(hash == table_addr(img2, doff, n, DT_HASH, info.load_offset));
        if hash >= base && hash - base + 4 <= img1.len() {
            assert(read_le32(img1, hash - base) == read_le32(img2, hash - base));
        }
        if dynamic_table_ok(base, img1, info) {
            assert(dynamic_table_ok(base, img2, info));
        }
        if dynamic_table_ok(base, img2, info) {
            assert(dynamic_table_ok(base, img1, info));
        }
    } else {
        assert(first_null(img2, doff, m) is None);
    }
}

/// Finish the parse once `DT_NULL` is found at entry `n`.
fn finish_vdso(
    base: usize,
    image: &[u8],
    info: PhdrInfo,
    n: usize,
    strtab: usize,
    symtab: usize,
    hash: usize,
    versym: usize,
    verdef: usize,
) -> (r: Option<Vdso>)
    requires
        info.dyn_addr >= base,
        first_null(image@, info.dyn_addr - base, readable_dyn(image@, info.dyn_addr - base, info.num_dyn))
            == Some(n as int),
        forall|j: int| 0 <= j < n ==> #[trigger] dyn_entry_ok(image@, info.dyn_addr - base, j, info.load_offset),
        strtab == table_addr(image@, info.dyn_addr - base, n as int, DT_STRTAB, info.load_offset),
        symtab == table_addr(image@, info.dyn_addr - base, n as int, DT_SYMTAB, info.load_offset),
        hash == table_addr(image@, info.dyn_addr - base, n as int, DT_HASH, info.load_offset),
        versym == table_addr(image@, info.dyn_addr - base, n as int, DT_VERSYM, info.load_offset),
        verdef == table_addr(image@, info.dyn_addr - base, n as int, DT_VERDEF, info.load_offset),
        (strtab != 0) == last_tag(image@, info.dyn_addr - base, n as int, DT_STRTAB) is Some,
        (symtab != 0) == last_tag(image@, info.dyn_addr - base, n as int, DT_SYMTAB) is Some,
        (hash != 0) == last_tag(image@, info.dyn_addr - base, n as int, DT_HASH) is Some,
    ensures
        r is Some <==> dynamic_table_ok(base, image@, info),
        r matches Some(v) ==> v == dynamic_table_vdso(base, image@, info),
{
    if strtab == 0 || symtab == 0 || hash == 0 {
        return None;
    }
    let len = image.len();
    if hash < base || hash - base > len || len - (hash - base) < 4 {
        return None;
    }
    // The hash table's header: the number of buckets, then of chains.
    let nbucket = read_u32_le(image, hash - base);
    let bucket = match hash.checked_add(8) {
        Some(b) => b,
        None => return None,
    };
    let chain = match (nbucket as usize).checked_add(2) {
        Some(k) => match k.checked_mul(4) {
            Some(bytes) => match hash.checked_add(bytes) {
                Some(c) => c,
                None => return None,
            },
            None => return None,
        },
        None => return None,
    };
    let versym = if verdef == 0 {
        0
    } else {
        versym
    };
    Some(
        Vdso {
            load_addr: base,
            load_end: info.load_end,
            load_offset: info.load_offset,
            symtab,
            symstrings: strtab,
            bucket,
            chain,
            nbucket,
            versym,
            verdef,
        },
    )
}

/// The vDSO that the image at `base` holds, if it conforms to the
/// expectations of the parser: an acceptable ELF header, program headers
/// and dynamic table.
pub open spec fn parse_vdso(base: usize, img: Seq<u8>) -> Option<Vdso> {
    if !ehdr_ok(base, img) {
        None
    } else {
        let phoff = ehdr_phoff(img);
        let phnum = ehdr_phnum(img);
        if !phdrs_ok(base, img, phoff, phnum) {
            None
        } else {
            let info = phdr_info(base, img, phoff, phnum);
            if !dynamic_table_ok(base, img, info) {
                None
            } else {
                Some(dynamic_table_vdso(base, img, info))
            }
        }
    }
}

/// Parse the vDSO whose image is the memory at `base`.
///
/// Before the program headers are read, the caller is to check that the
/// image is not its own ELF image, that its header is mapped, and that it
/// is not writable.
pub fn init_from_sysinfo_ehdr(base: usize, image: &[u8]) -> (r: Option<Vdso>)
    ensures
        r == parse_vdso(base, image@),
{
    let (phoff, phnum) = match check_ehdr(base, image) {
        Some(h) => h,
        None => return None,
    };
    let info = match scan_phdrs(base, image, phoff, phnum) {
        Some(info) => info,
        None => return None,
    };
    proof {
        let ph = phdrs_of(image@, phoff as int, phnum as int);
        lemma_of_type(ph, phnum as int, PT_DYNAMIC);
        let d = last_of_type(ph, phnum as int, PT_DYNAMIC)->0;
        assert(ph[d].p_type == PT_DYNAMIC);
        assert(dynamic_ok(base, ph[d]));
    }
    scan_dynamic(base, image, info)
}

} // verus!
