//! Look up symbols in a parsed vDSO.
//!
//! The image is read as in `vdso`: the bytes of memory from the load
//! address on. A read outside of the image is refused, and the lookup then
//! finds nothing.
use crate::bytes::{read_le16, read_le32, read_le64, read_u16_le, read_u32_le, read_u64_le};
use crate::vdso::{elf_hash, elf_hash_of, Vdso, SIZEOF_SYM, SIZEOF_VERDEF};
use vstd::prelude::*;

verus! {

/// `VER_DEF_CURRENT`
pub const VER_DEF_CURRENT: u16 = 1;

/// `VER_FLG_BASE`
pub const VER_FLG_BASE: u16 = 1;

/// `STN_UNDEF`: the symbol index that ends a hash chain.
pub const STN_UNDEF: u32 = 0;

/// `STT_FUNC`
pub const STT_FUNC: u8 = 2;

/// `STB_GLOBAL`
pub const STB_GLOBAL: u8 = 1;

/// `STB_WEAK`
pub const STB_WEAK: u8 = 2;

/// `SHN_UNDEF`
pub const SHN_UNDEF: u16 = 0;

/// `SHN_ABS`
pub const SHN_ABS: u16 = 0xfff1;

/// `STV_DEFAULT`
pub const STV_DEFAULT: u8 = 0;

/// Whether the `n` bytes at address `a` lie in the image at `base`.
pub open spec fn mem_ok(base: usize, img: Seq<u8>, a: int, n: int) -> bool {
    a >= base && a - base + n <= img.len()
}

/// The offset in the image of the first NUL byte at or after offset `i`.
pub open spec fn find_nul(img: Seq<u8>, i: int) -> Option<int>
    decreases img.len() - i,
{
    if i < 0 || i >= img.len() {
        None
    } else if img[i] == 0 {
        Some(i)
    } else {
        find_nul(img, i + 1)
    }
}

/// Whether the C string at offset `off` of the image is `name`; `None` when
/// the string does not end within the image.
pub open spec fn cstr_eq(img: Seq<u8>, off: int, name: Seq<u8>) -> Option<bool> {
    match find_nul(img, off) {
        Some(e) => Some(img.subrange(off, e) == name),
        None => None,
    }
}

proof fn lemma_find_nul_skip(img: Seq<u8>, off: int, i: int)
    requires
        0 <= off <= i,
        forall|k: int| off <= k < i ==> img[k] != 0,
        i <= img.len(),
    ensures
        find_nul(img, off) == find_nul(img, i),
    decreases i - off,
{
    if off < i {
        lemma_find_nul_skip(img, off + 1, i);
    }
}

/// Compare the C string at offset `off` of the image with `name`.
fn cstr_eq_at(image: &[u8], off: usize, name: &[u8]) -> (r: Option<bool>)
    ensures
        r == cstr_eq(image@, off as int, name@),
{
    let len = image.len();
    let ghost img = image@;
    if off >= len {
        return None;
    }
    let mut i = off;
    let mut same = true;
    assert(img.subrange(off as int, off as int) == name@.subrange(0, 0));
    while i < len
        invariant
            off <= i,
            i <= len,
            len == img.len(),
            img == image@,
            forall|k: int| off <= k < i ==> img[k] != 0,
            same == (i - off <= name@.len() && img.subrange(off as int, i as int)
                == name@.subrange(0, i - off)),
        decreases len - i,
    {
        if image[i] == 0 {
            proof {
                lemma_find_nul_skip(img, off as int, i as int);
                assert(find_nul(img, i as int) == Some(i as int));
                if same && i - off == name@.len() {
                    assert(name@.subrange(0, i - off) == name@);
                }
                if img.subrange(off as int, i as int) == name@ {
                    assert(name@.subrange(0, i - off) == name@);
                }
            }
            return Some(same && i - off == name.len());
        }
        if same {
            if i - off < name.len() && image[i] == name[i - off] {
                assert(img.subrange(off as int, i + 1) == img.subrange(off as int, i as int).push(
                    img[i as int],
                ));
                assert(name@.subrange(0, i + 1 - off) == name@.subrange(0, i - off).push(
                    name@[i - off],
                ));
            } else {
                same = false;
                proof {
                    if i - off < name@.len() {
                        assert(img.subrange(off as int, i + 1)[i - off] != name@.subrange(
                            0,
                            i + 1 - off,
                        )[i - off]);
                    }
                }
            }
        } else {
            proof {
                if i + 1 - off <= name@.len() && img.subrange(off as int, i + 1) == name@.subrange(
                    0,
                    i + 1 - off,
                ) {
                assert(img.subrange(off as int, i as int) == img.subrange(off as int, i + 1).subrange(
                    0,
                    i - off,
                ));
                assert(name@.subrange(0, i - off) == name@.subrange(0, i + 1 - off).subrange(
                    0,
                    i - off,
                ));
                }
            }
        }
        i = i + 1;
    }
    proof {
        if off <= len {
            lemma_find_nul_skip(img, off as int, len as int);
        }
    }
    None
}

/// The size of `Elf64_Verdaux`.
pub const SIZEOF_VERDAUX: usize = 8;

/// Walk the version definitions from the one at address `def` for the
/// definition of version index `ver` that is not the base definition:
/// `Some(Some(d))` when it is found at `d`, `Some(None)` when the walk ends
/// without it or meets a definition of another revision, `None` when a
/// definition lies outside the image.
pub open spec fn verdef_find(base: usize, img: Seq<u8>, def: int, ver: u16) -> Option<Option<int>>
    decreases base + img.len() - def,
{
    if !mem_ok(base, img, def, SIZEOF_VERDEF as int) {
        None
    } else {
        let off = def - base;
        if read_le16(img, off) != VER_DEF_CURRENT {
            Some(None)
        } else if read_le16(img, off + 2) as u16 & VER_FLG_BASE == 0 && read_le16(img, off + 4)
            as u16 & 0x7fffu16 == ver {
            Some(Some(def))
        } else {
            let next = read_le32(img, off + 16);
            if next == 0 {
                Some(None)
            } else if def + next > base + img.len() || def + next > usize::MAX {
                None
            } else {
                verdef_find(base, img, def + next, ver)
            }
        }
    }
}

/// Whether the version with index `ver` (bit 15, "hidden", aside) is the
/// version `name`, whose ELF hash is `hash`: its definition is found, has
/// that hash and names `name`. `None` when the image does not hold what
/// is read.
pub open spec fn version_matches(v: Vdso, img: Seq<u8>, ver: u16, name: Seq<u8>, hash: u32) -> Option<
    bool,
> {
    let base = v.load_addr;
    match verdef_find(base, img, v.verdef as int, ver & 0x7fffu16) {
        None => None,
        Some(None) => Some(false),
        Some(Some(d)) => {
            let off = d - base;
            if read_le32(img, off + 8) != hash {
                Some(false)
            } else {
                let aux = d + read_le32(img, off + 12);
                if !mem_ok(base, img, aux, SIZEOF_VERDAUX as int) {
                    None
                } else {
                    let s = v.symstrings + read_le32(img, aux - base);
                    if s < base || s > usize::MAX {
                        None
                    } else {
                        cstr_eq(img, s - base, name)
                    }
                }
            }
        },
    }
}

impl Vdso {
    /// Check the version for a symbol: whether version index `ver` is the
    /// version `name`, whose ELF hash is `hash`.
    ///
    /// The version definition table is parsed from its start each time: it
    /// has entries of variable size, and no index of it is built.
    pub fn match_version(&self, image: &[u8], ver: u16, name: &[u8], hash: u32) -> (r: Option<
        bool,
    >)
        ensures
            r == version_matches(*self, image@, ver, name@, hash),
    {
        let base = self.load_addr;
        let len = image.len();
        let ghost img = image@;
        // Bit 15 of a version index means "hidden".
        let want = ver & 0x7fff;
        let mut def = self.verdef;
        loop
            invariant
                base == self.load_addr,
                len == img.len(),
                img == image@,
                want == ver & 0x7fffu16,
                verdef_find(base, img, self.verdef as int, want) == verdef_find(
                    base,
                    img,
                    def as int,
                    want,
                ),
            ensures
                base <= def,
                def - base + SIZEOF_VERDEF <= len,
                verdef_find(base, img, self.verdef as int, want) == Some(Some(def as int)),
            decreases base + len - def,
        {
            if def < base || def - base > len || len - (def - base) < SIZEOF_VERDEF {
                return None;
            }
            let off = def - base;
            if read_u16_le(image, off) != VER_DEF_CURRENT {
                return Some(false);
            }
            if (read_u16_le(image, off + 2) & VER_FLG_BASE) == 0 && (read_u16_le(image, off + 4)
                & 0x7fff) == want {
                break;
            }
            let next = read_u32_le(image, off + 16);
            if next == 0 {
                return Some(false);  // No definition.
            }
            if next as usize > len - off {
                return None;
            }
            def = match def.checked_add(next as usize) {
                Some(d) => d,
                None => return None,
            };
        }
        let off = def - base;
        if read_u32_le(image, off + 8) != hash {
            return Some(false);
        }
        let aux_off = read_u32_le(image, off + 12) as usize;
        if aux_off > len - off || len - off - aux_off < SIZEOF_VERDAUX {
            return None;
        }
        let vda_name = read_u32_le(image, off + aux_off) as usize;
        let s = match self.symstrings.checked_add(vda_name) {
            Some(s) => s,
            None => return None,
        };
        if s < base {
            return None;
        }
        cstr_eq_at(image, s - base, name)
    }
}


/// Whether the `n` bytes at address `a` lie in the image at `base`, `a`
/// being an address.
pub open spec fn entry_ok(base: usize, img: Seq<u8>, a: int, n: int) -> bool {
    a <= usize::MAX && mem_ok(base, img, a, n)
}

/// The offset in the image of entry `idx`, of `size` bytes, of the table at
/// address `table`; `None` when the entry is not in the image.
fn entry_at(base: usize, image: &[u8], table: usize, idx: u32, size: usize) -> (r: Option<usize>)
    requires
        0 < size <= SIZEOF_SYM,
    ensures
        r is Some <==> entry_ok(base, image@, table + idx * size, size as int),
        r matches Some(o) ==> o == table + idx * size - base,
{
    let len = image.len();
    let step = match (idx as usize).checked_mul(size) {
        Some(x) => x,
        None => return None,
    };
    let a = match table.checked_add(step) {
        Some(a) => a,
        None => return None,
    };
    if a < base || a - base > len || len - (a - base) < size {
        return None;
    }
    Some(a - base)
}

/// `ELF_ST_TYPE`
pub open spec fn st_type(info: u8) -> u8 {
    info & 0xf
}

/// `ELF_ST_BIND`
pub open spec fn st_bind(info: u8) -> u8 {
    info >> 4u8
}

/// `ELF_ST_VISIBILITY`
pub open spec fn st_visibility(other: u8) -> u8 {
    other & 0x3
}

/// Whether the symbol at offset `off` of the image is a defined global or
/// weak function of default visibility.
pub open spec fn sym_candidate(img: Seq<u8>, off: int) -> bool {
    let info = img[off + 4];
    let shndx = read_le16(img, off + 6);
    &&& st_type(info) == STT_FUNC
    &&& (st_bind(info) == STB_GLOBAL || st_bind(info) == STB_WEAK)
    &&& shndx != SHN_UNDEF
    &&& shndx != SHN_ABS
    &&& st_visibility(img[off + 5]) == STV_DEFAULT
}

/// Whether symbol `idx`, at offset `off` of the image, is the function
/// `name` of version `version`, whose ELF hash is `vhash`. `None` when the
/// image does not hold what is read.
pub open spec fn sym_matches(
    v: Vdso,
    img: Seq<u8>,
    idx: u32,
    off: int,
    version: Seq<u8>,
    name: Seq<u8>,
    vhash: u32,
) -> Option<bool> {
    let base = v.load_addr;
    if !sym_candidate(img, off) {
        Some(false)
    } else {
        let s = v.symstrings + read_le32(img, off);
        let named = if s < base || s > usize::MAX {
            None
        } else {
            cstr_eq(img, s - base, name)
        };
        match named {
            None => None,
            Some(false) => Some(false),
            Some(true) => {
                if v.versym == 0 {
                    Some(true)
                } else {
                    let va = v.versym + idx * 2;
                    if !entry_ok(base, img, va, 2) {
                        None
                    } else {
                        version_matches(v, img, read_le16(img, va - base) as u16, version, vhash)
                    }
                }
            },
        }
    }
}

/// Follow the hash chain from symbol index `idx` for the function `name`
/// of version `version`, taking at most `fuel` steps: `Some(Some(value))`
/// with the symbol's recorded value when it is found, `Some(None)` when
/// the chain ends first, `None` when the image does not hold what is read.
pub open spec fn sym_walk(
    v: Vdso,
    img: Seq<u8>,
    idx: u32,
    version: Seq<u8>,
    name: Seq<u8>,
    vhash: u32,
    fuel: nat,
) -> Option<Option<u64>>
    decreases fuel,
{
    let base = v.load_addr;
    let sa = v.symtab + idx * SIZEOF_SYM;
    if idx == STN_UNDEF || fuel == 0 {
        Some(None)
    } else if !entry_ok(base, img, sa, SIZEOF_SYM as int) {
        None
    } else {
        let off = sa - base;
        match sym_matches(v, img, idx, off, version, name, vhash) {
            None => None,
            Some(true) => Some(Some(read_le64(img, off + 8) as u64)),
            Some(false) => {
                let ca = v.chain + idx * 4;
                if !entry_ok(base, img, ca, 4) {
                    None
                } else {
                    sym_walk(v, img, read_le32(img, ca - base) as u32, version, name, vhash, (fuel - 1) as nat)
                }
            },
        }
    }
}

/// Whether symbol `idx` of the vDSO is the function `name`, with the
/// recorded value `value`: its entry lies in the image, it is a defined
/// global or weak function of default visibility, and its name is `name`.
pub open spec fn sym_found(v: Vdso, img: Seq<u8>, idx: u32, name: Seq<u8>, value: u64) -> bool {
    let base = v.load_addr;
    let sa = v.symtab + idx * SIZEOF_SYM;
    let off = sa - base;
    let s = v.symstrings + read_le32(img, off);
    &&& idx != STN_UNDEF
    &&& entry_ok(base, img, sa, SIZEOF_SYM as int)
    &&& sym_candidate(img, off)
    &&& base <= s <= usize::MAX
    &&& cstr_eq(img, s - base, name) == Some(true)
    &&& read_le64(img, off + 8) as u64 == value
}

/// A chain walk finds only what it looks for: the value it gives is that
/// of a function symbol named `name`.
pub proof fn lemma_sym_walk_found(
    v: Vdso,
    img: Seq<u8>,
    idx: u32,
    version: Seq<u8>,
    name: Seq<u8>,
    vhash: u32,
    fuel: nat,
)
    ensures
        forall|value: u64|
            sym_walk(v, img, idx, version, name, vhash, fuel) == Some(Some(value)) ==> exists|
                k: u32,
            | #[trigger] sym_found(v, img, k, name, value),
    decreases fuel,
{
    let base = v.load_addr;
    let sa = v.symtab + idx * SIZEOF_SYM;
    if idx != STN_UNDEF && fuel != 0 && entry_ok(base, img, sa, SIZEOF_SYM as int) {
        let off = sa - base;
        match sym_matches(v, img, idx, off, version, name, vhash) {
            Some(true) => {
                assert(sym_found(v, img, idx, name, read_le64(img, off + 8) as u64));
            },
            Some(false) => {
                let ca = v.chain + idx * 4;
                if entry_ok(base, img, ca, 4) {
                    lemma_sym_walk_found(
                        v,
                        img,
                        read_le32(img, ca - base) as u32,
                        version,
                        name,
                        vhash,
                        (fuel - 1) as nat,
                    );
                }
            },
            None => {},
        }
    }
}

/// The number of steps a chain walk takes at most: one more than the
/// number of symbols that the image can hold, so that a walk that runs out
/// has met a symbol twice and would never end.
pub open spec fn chain_fuel(img: Seq<u8>) -> nat {
    (img.len() / SIZEOF_SYM as nat + 1) as nat
}

/// The recorded value of the function `name` of version `version` in the
/// vDSO, looked up through its hash table: `Some(None)` when there is no
/// such symbol, `None` when the image does not hold what is read.
pub open spec fn sym_lookup(v: Vdso, img: Seq<u8>, version: Seq<u8>, name: Seq<u8>) -> Option<
    Option<u64>,
> {
    let base = v.load_addr;
    let ba = v.bucket + (elf_hash_of(name) % v.nbucket) * 4;
    if !entry_ok(base, img, ba, 4) {
        None
    } else {
        sym_walk(
            v,
            img,
            read_le32(img, ba - base) as u32,
            version,
            name,
            elf_hash_of(version),
            chain_fuel(img),
        )
    }
}

/// A lookup finds only what it looks for: the value it gives is that of a
/// defined global or weak function named `name`.
pub proof fn lemma_lookup_finds_name(v: Vdso, img: Seq<u8>, version: Seq<u8>, name: Seq<u8>)
    ensures
        forall|value: u64|
            sym_lookup(v, img, version, name) == Some(Some(value)) ==> exists|k: u32| #[trigger]
                sym_found(v, img, k, name, value),
{
    let base = v.load_addr;
    let ba = v.bucket + (elf_hash_of(name) % v.nbucket) * 4;
    if entry_ok(base, img, ba, 4) {
        lemma_sym_walk_found(
            v,
            img,
            read_le32(img, ba - base) as u32,
            version,
            name,
            elf_hash_of(version),
            chain_fuel(img),
        );
    }
}

/// The first symbol of the hash chain for `name`: the word of bucket
/// `elf_hash(name) % nbucket`.
pub open spec fn name_chain_start(v: Vdso, img: Seq<u8>, name: Seq<u8>) -> u32 {
    read_le32(img, v.bucket + (elf_hash_of(name) % v.nbucket) * 4 - v.load_addr) as u32
}

/// The symbol after `idx` on its hash chain: the chain word of `idx`.
pub open spec fn chain_next(v: Vdso, img: Seq<u8>, idx: u32) -> u32 {
    read_le32(img, v.chain + idx * 4 - v.load_addr) as u32
}

/// The symbol `t` steps along the hash chain from `idx`.
pub open spec fn chain_at(v: Vdso, img: Seq<u8>, idx: u32, t: nat) -> u32
    decreases t,
{
    if t == 0 {
        idx
    } else {
        chain_at(v, img, chain_next(v, img, idx), (t - 1) as nat)
    }
}

/// Whether the first `t` symbols of the chain from `idx` can be read and
/// passed over: each is a symbol other than the end of the chain, its
/// entry and chain word lie in the image, and it is not the function
/// `name` of version `version`.
pub open spec fn chain_skips(
    v: Vdso,
    img: Seq<u8>,
    idx: u32,
    t: nat,
    version: Seq<u8>,
    name: Seq<u8>,
) -> bool
    decreases t,
{
    let base = v.load_addr;
    let sa = v.symtab + idx * SIZEOF_SYM;
    t == 0 || {
        &&& idx != STN_UNDEF
        &&& entry_ok(base, img, sa, SIZEOF_SYM as int)
        &&& sym_matches(v, img, idx, sa - base, version, name, elf_hash_of(version)) == Some(false)
        &&& entry_ok(base, img, v.chain + idx * 4, 4)
        &&& chain_skips(v, img, chain_next(v, img, idx), (t - 1) as nat, version, name)
    }
}

/// Whether symbol `k` is of version `version`, or the vDSO keeps no
/// versions.
pub open spec fn version_ok(v: Vdso, img: Seq<u8>, k: u32, version: Seq<u8>) -> bool {
    let base = v.load_addr;
    let va = v.versym + k * 2;
    v.versym == 0 || (entry_ok(base, img, va, 2) && version_matches(
        v,
        img,
        read_le16(img, va - base) as u16,
        version,
        elf_hash_of(version),
    ) == Some(true))
}

proof fn lemma_walk_reaches(
    v: Vdso,
    img: Seq<u8>,
    idx: u32,
    t: nat,
    fuel: nat,
    version: Seq<u8>,
    name: Seq<u8>,
    value: u64,
)
    requires
        chain_skips(v, img, idx, t, version, name),
        t < fuel,
        sym_found(v, img, chain_at(v, img, idx, t), name, value),
        version_ok(v, img, chain_at(v, img, idx, t), version),
    ensures
        sym_walk(v, img, idx, version, name, elf_hash_of(version), fuel) == Some(Some(value)),
    decreases t,
{
    if t > 0 {
        lemma_walk_reaches(v, img, chain_next(v, img, idx), (t - 1) as nat, (fuel - 1) as nat, version, name, value);
    }
}

/// A lookup finds what the hash chain of `name` holds: when the chain that
/// starts at bucket `elf_hash(name) % nbucket` leads, past symbols that are
/// not the one sought, to a defined global or weak function named `name` of
/// version `version`, the lookup gives that function's value. The bucket
/// depends on the name alone, not on the version.
pub proof fn lemma_lookup_finds_on_name_chain(
    v: Vdso,
    img: Seq<u8>,
    version: Seq<u8>,
    name: Seq<u8>,
    t: nat,
    value: u64,
)
    requires
        v.nbucket != 0,
        entry_ok(v.load_addr, img, v.bucket + (elf_hash_of(name) % v.nbucket) * 4, 4),
        chain_skips(v, img, name_chain_start(v, img, name), t, version, name),
        t < chain_fuel(img),
        sym_found(v, img, chain_at(v, img, name_chain_start(v, img, name), t), name, value),
        version_ok(v, img, chain_at(v, img, name_chain_start(v, img, name), t), version),
    ensures
        sym_lookup(v, img, version, name) == Some(Some(value)),
        sym_address(v, img, version, name) == v.load_offset + value,
{
    lemma_walk_reaches(v, img, name_chain_start(v, img, name), t, chain_fuel(img), version, name, value);
}

/// The address that a lookup gives: the symbol's value moved by the load
/// offset, or 0 (a null pointer) when nothing is found.
pub open spec fn sym_address(v: Vdso, img: Seq<u8>, version: Seq<u8>, name: Seq<u8>) -> int {
    match sym_lookup(v, img, version, name) {
        Some(Some(value)) => v.load_offset + value,
        _ => 0,
    }
}

/// Whether the address that a lookup finds lies in the loaded segment.
pub open spec fn sym_in_range(v: Vdso, img: Seq<u8>, version: Seq<u8>, name: Seq<u8>) -> bool {
    match sym_lookup(v, img, version, name) {
        Some(Some(value)) => v.load_addr <= v.load_offset + value <= v.load_end,
        _ => true,
    }
}


impl Vdso {
    /// Whether symbol `idx`, at offset `off` of the image, is the function
    /// `name` of version `version`, whose ELF hash is `vhash`.
    fn sym_matches_at(
        &self,
        image: &[u8],
        idx: u32,
        off: usize,
        version: &[u8],
        name: &[u8],
        vhash: u32,
    ) -> (r: Option<bool>)
        requires
            off + SIZEOF_SYM <= image@.len(),
        ensures
            r == sym_matches(*self, image@, idx, off as int, version@, name@, vhash),
    {
        let base = self.load_addr;
        let len = image.len();
        assert(off + SIZEOF_SYM <= len);
        let info = image[off + 4];
        let other = image[off + 5];
        let shndx = read_u16_le(image, off + 6);
        if (info & 0xf) != STT_FUNC || ((info >> 4u8) != STB_GLOBAL && (info >> 4u8) != STB_WEAK)
            || shndx == SHN_UNDEF || shndx == SHN_ABS || (other & 0x3) != STV_DEFAULT {
            return Some(false);
        }
        let st_name = read_u32_le(image, off) as usize;
        let s = match self.symstrings.checked_add(st_name) {
            Some(s) => s,
            None => return None,
        };
        if s < base {
            return None;
        }
        match cstr_eq_at(image, s - base, name) {
            None => return None,
            Some(false) => return Some(false),
            Some(true) => {},
        }
        if self.versym == 0 {
            return Some(true);
        }
        let vo = match entry_at(base, image, self.versym, idx, 2) {
            Some(o) => o,
            None => return None,
        };
        self.match_version(image, read_u16_le(image, vo), version, vhash)
    }

    /// Find the function `name` of version `version` through the hash
    /// table, and give its recorded value.
    pub fn lookup_sym(&self, image: &[u8], version: &[u8], name: &[u8]) -> (r: Option<Option<u64>>)
        requires
            self.nbucket != 0,
        ensures
            r == sym_lookup(*self, image@, version@, name@),
    {
        let base = self.load_addr;
        let len = image.len();
        let ghost img = image@;
        let vhash = elf_hash(version);
        let nhash = elf_hash(name);
        let bo = match entry_at(base, image, self.bucket, nhash % self.nbucket, 4) {
            Some(o) => o,
            None => return None,
        };
        let mut idx = read_u32_le(image, bo);
        let mut fuel: usize = len / SIZEOF_SYM + 1;
        loop
            invariant
                base == self.load_addr,
                len == img.len(),
                img == image@,
                vhash == elf_hash_of(version@),
                sym_lookup(*self, img, version@, name@) == sym_walk(
                    *self,
                    img,
                    idx,
                    version@,
                    name@,
                    vhash,
                    fuel as nat,
                ),
            decreases fuel,
        {
            if idx == STN_UNDEF || fuel == 0 {
                return Some(None);
            }
            let so = match entry_at(base, image, self.symtab, idx, SIZEOF_SYM) {
                Some(o) => o,
                None => return None,
            };
            match self.sym_matches_at(image, idx, so, version, name, vhash) {
                None => return None,
                Some(true) => return Some(Some(read_u64_le(image, so + 8))),
                Some(false) => {},
            }
            let co = match entry_at(base, image, self.chain, idx, 4) {
                Some(o) => o,
                None => return None,
            };
            idx = read_u32_le(image, co);
            fuel = fuel - 1;
        }
    }

    /// Look up the function `name` of version `version` in the vDSO: its
    /// address, or 0 (a null pointer) when there is none.
    pub fn sym(&self, image: &[u8], version: &[u8], name: &[u8]) -> (r: usize)
        requires
            self.nbucket != 0,
            sym_in_range(*self, image@, version@, name@),
        ensures
            r == sym_address(*self, image@, version@, name@),
    {
        match self.lookup_sym(image, version, name) {
            Some(Some(value)) => self.load_offset + value as usize,
            _ => 0,
        }
    }
}

} // verus!
