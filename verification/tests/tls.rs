use rustix::elf::{ElfPhdr, PT_GNU_STACK, PT_LOAD, PT_PHDR, PT_TLS};
use rustix::thread::tls::{exe_headers, ExeHeaders};

fn ph(p_type: u32, vaddr: usize, filesz: usize, memsz: usize, align: usize) -> ElfPhdr {
    ElfPhdr {
        p_type,
        p_flags: 4,
        p_offset: 0,
        p_vaddr: vaddr,
        p_paddr: vaddr,
        p_filesz: filesz,
        p_memsz: memsz,
        p_align: align,
    }
}

#[test]
fn tls_segment_of_a_pie() {
    let phdrs = [
        ph(PT_PHDR, 0x40, 0x1c0, 0x1c0, 8),
        ph(PT_LOAD, 0, 0x1000, 0x1000, 0x1000),
        ph(PT_TLS, 0x2000, 0x10, 0x38, 16),
        ph(PT_GNU_STACK, 0, 0, 0x80000, 16),
    ];
    let h = exe_headers(0x5555_0040, &phdrs);
    assert_eq!(
        h,
        ExeHeaders {
            addr: 0x5555_2000,
            file_size: 0x10,
            mem_size: 0x38,
            align: 16,
            stack_size: 0x80000,
        }
    );
}

#[test]
fn tls_segment_without_phdr_or_stack() {
    let phdrs = [ph(PT_TLS, 0x40_1000, 8, 8, 8)];
    let h = exe_headers(0x40_0040, &phdrs);
    assert_eq!(h.addr, 0x40_1000);
    assert_eq!(h.stack_size, 0);
}
