use rustix::vdso::{check_ehdr, elf_hash, init_from_sysinfo_ehdr, make_pointer, Vdso};

const BASE: usize = 0x10000;

fn put16(img: &mut [u8], at: usize, v: u16) {
    img[at..at + 2].copy_from_slice(&v.to_le_bytes());
}

fn put32(img: &mut [u8], at: usize, v: u32) {
    img[at..at + 4].copy_from_slice(&v.to_le_bytes());
}

fn put64(img: &mut [u8], at: usize, v: u64) {
    img[at..at + 8].copy_from_slice(&v.to_le_bytes());
}

fn phdr(img: &mut [u8], at: usize, p_type: u32, flags: u32, off: u64, size: u64) {
    put32(img, at, p_type);
    put32(img, at + 4, flags);
    put64(img, at + 8, off);
    put64(img, at + 16, off);
    put64(img, at + 24, off);
    put64(img, at + 32, size);
    put64(img, at + 40, size);
    put64(img, at + 48, 8);
}

/// A small vDSO image: an ELF header, a loadable segment and a dynamic
/// segment, a hash table of one bucket, and one function symbol.
fn vdso_image() -> Vec<u8> {
    let mut img = vec![0u8; 352];
    img[0..4].copy_from_slice(&[0x7f, b'E', b'L', b'F']);
    img[4] = 2; // ELFCLASS64
    img[5] = 1; // ELFDATA2LSB
    img[6] = 1; // EV_CURRENT
    put16(&mut img, 16, 3); // ET_DYN
    put16(&mut img, 18, 62); // EM_X86_64
    put64(&mut img, 32, 64); // e_phoff
    put16(&mut img, 52, 64); // e_ehsize
    put16(&mut img, 54, 56); // e_phentsize
    put16(&mut img, 56, 2); // e_phnum
    phdr(&mut img, 64, 1, 5, 0, 352); // PT_LOAD, R|X
    phdr(&mut img, 120, 2, 4, 176, 80); // PT_DYNAMIC, R
    let dyns: [(u64, u64); 5] = [(4, 256), (5, 328), (6, 280), (11, 24), (0, 0)];
    for (i, (tag, val)) in dyns.iter().enumerate() {
        put64(&mut img, 176 + 16 * i, *tag);
        put64(&mut img, 176 + 16 * i + 8, *val);
    }
    // Hash table: one bucket, two chains; bucket 0 starts at symbol 1.
    put32(&mut img, 256, 1);
    put32(&mut img, 260, 2);
    put32(&mut img, 264, 1);
    put32(&mut img, 268, 0);
    put32(&mut img, 272, 0);
    // Symbol 1: a global function named at string offset 1.
    put32(&mut img, 304, 1);
    img[308] = 0x12;
    img[309] = 0;
    put16(&mut img, 310, 1);
    put64(&mut img, 312, 0x100);
    let name = b"\0__vdso_clock_gettime\0";
    img[328..328 + name.len()].copy_from_slice(name);
    img
}

#[test]
fn elf_hash_values() {
    assert_eq!(elf_hash(b""), 0);
    assert_eq!(elf_hash(b"a"), 0x61);
    assert_eq!(elf_hash(b"printf"), 0x077905a6);
    assert_eq!(elf_hash(b"exit"), 0x0006cf04);
    assert_eq!(elf_hash(b"LINUX_2.6"), 0x03ae75f6);
    assert_eq!(elf_hash(b"abcdefghijklmnop"), 0x0bb9a310);
}

#[test]
fn pointer_checks() {
    assert_eq!(make_pointer(0x1000, 8, 8), Some(0x1000));
    assert_eq!(make_pointer(0, 8, 8), None);
    assert_eq!(make_pointer(0x1004, 8, 8), None);
    assert_eq!(make_pointer(usize::MAX - 3, 8, 1), None);
}

#[test]
fn header_check() {
    let img = vdso_image();
    assert_eq!(check_ehdr(BASE, &img), Some((64, 2)));
    assert_eq!(check_ehdr(BASE + 4, &img), None);
    let mut bad = img.clone();
    bad[1] = b'X';
    assert_eq!(check_ehdr(BASE, &bad), None);
    let mut other_machine = img.clone();
    put16(&mut other_machine, 18, 183);
    assert_eq!(check_ehdr(BASE, &other_machine), None);
    assert_eq!(check_ehdr(BASE, &img[..63]), None);
}

#[test]
fn parse_and_look_up() {
    let img = vdso_image();
    let v = init_from_sysinfo_ehdr(BASE, &img).unwrap();
    assert_eq!(v.load_addr, BASE);
    assert_eq!(v.load_end, BASE + 352);
    assert_eq!(v.load_offset, BASE);
    assert_eq!(v.symtab, BASE + 280);
    assert_eq!(v.symstrings, BASE + 328);
    assert_eq!(v.bucket, BASE + 264);
    assert_eq!(v.chain, BASE + 268);
    assert_eq!(v.nbucket, 1);
    assert_eq!(v.versym, 0);
    assert_eq!(v.verdef, 0);
    assert_eq!(
        v.lookup_sym(&img, b"LINUX_2.6", b"__vdso_clock_gettime"),
        Some(Some(0x100))
    );
    assert_eq!(v.sym(&img, b"LINUX_2.6", b"__vdso_clock_gettime"), BASE + 0x100);
    assert_eq!(v.lookup_sym(&img, b"LINUX_2.6", b"__vdso_getcpu"), Some(None));
    assert_eq!(v.sym(&img, b"LINUX_2.6", b"__vdso_getcpu"), 0);
}

#[test]
fn symbol_must_be_a_global_function() {
    let mut img = vdso_image();
    img[308] = 0x11; // STT_OBJECT
    let v = init_from_sysinfo_ehdr(BASE, &img).unwrap();
    assert_eq!(v.sym(&img, b"LINUX_2.6", b"__vdso_clock_gettime"), 0);
    img[308] = 0x02; // STB_LOCAL
    assert_eq!(v.sym(&img, b"LINUX_2.6", b"__vdso_clock_gettime"), 0);
    img[308] = 0x22; // STB_WEAK
    assert_eq!(v.sym(&img, b"LINUX_2.6", b"__vdso_clock_gettime"), BASE + 0x100);
}

#[test]
fn refused_images() {
    let img = vdso_image();
    let mut writable = img.clone();
    put32(&mut writable, 68, 7); // PT_LOAD made writable
    assert_eq!(init_from_sysinfo_ehdr(BASE, &writable), None);
    let mut no_null = img.clone();
    put64(&mut no_null, 176 + 64, 11); // DT_NULL replaced
    put64(&mut no_null, 176 + 72, 24);
    assert_eq!(init_from_sysinfo_ehdr(BASE, &no_null), None);
    let mut bad_syment = img.clone();
    put64(&mut bad_syment, 176 + 56, 16);
    assert_eq!(init_from_sysinfo_ehdr(BASE, &bad_syment), None);
    assert_eq!(init_from_sysinfo_ehdr(BASE, &img[..200]), None);
}

/// Two version definitions: the base one, and `LINUX_2.6` at index 2.
fn verdef_image() -> Vec<u8> {
    let mut img = vec![0u8; 64];
    put16(&mut img, 0, 1);
    put16(&mut img, 2, 1); // VER_FLG_BASE
    put16(&mut img, 4, 1);
    put32(&mut img, 16, 20);
    put16(&mut img, 20, 1);
    put16(&mut img, 22, 0);
    put16(&mut img, 24, 2);
    put32(&mut img, 28, 0x03ae75f6);
    put32(&mut img, 32, 20);
    put32(&mut img, 36, 0);
    put32(&mut img, 40, 1);
    img[48..59].copy_from_slice(b"\0LINUX_2.6\0");
    img
}

fn verdef_vdso(verdef: usize) -> Vdso {
    Vdso {
        load_addr: BASE,
        load_end: BASE + 64,
        load_offset: BASE,
        symtab: 0,
        symstrings: BASE + 48,
        bucket: 0,
        chain: 0,
        nbucket: 1,
        versym: 0,
        verdef,
    }
}

#[test]
fn version_matching() {
    let img = verdef_image();
    let v = verdef_vdso(BASE);
    let h = 0x03ae75f6;
    assert_eq!(v.match_version(&img, 2, b"LINUX_2.6", h), Some(true));
    assert_eq!(v.match_version(&img, 0x8002, b"LINUX_2.6", h), Some(true));
    assert_eq!(v.match_version(&img, 1, b"LINUX_2.6", h), Some(false));
    assert_eq!(v.match_version(&img, 2, b"LINUX_2.6", h + 1), Some(false));
    assert_eq!(v.match_version(&img, 2, b"LINUX_2.5", h), Some(false));
    assert_eq!(verdef_vdso(BASE + 60).match_version(&img, 2, b"LINUX_2.6", h), None);
    let mut old_revision = img.clone();
    put16(&mut old_revision, 0, 2);
    assert_eq!(v.match_version(&old_revision, 2, b"LINUX_2.6", h), Some(false));
}
