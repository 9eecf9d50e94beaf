use rustix::process::auxv::AuxvReadStep;
use rustix::conv::AT_FDCWD;
use rustix::io::Error;
use rustix::process::auxv::{
    decode_auxv_records, Auxv, ElfAuxv, AT_HWCAP, AT_HWCAP2, AT_NULL, AT_PAGESZ, AT_SYSINFO_EHDR,
};
use rustix::process::cpu_set::{
    count_ones, RawCpuSet, CPU_CLR, CPU_COUNT, CPU_COUNT_S, CPU_ISSET, CPU_SET, CPU_ZERO,
};
use rustix::process::membarrier::MembarrierCommand;
use rustix::process::priority::{
    nice_priority, nice_uses_current, priority_from_raw, rlimit_from_raw, Rlimit, RLIM_INFINITY,
};
use rustix::reg::{FromAsm, RetReg, R0};

#[test]
fn cpu_set_membership() {
    let mut set = RawCpuSet::new();
    assert_eq!(CPU_COUNT(&set), 0);
    CPU_SET(0, &mut set);
    CPU_SET(63, &mut set);
    CPU_SET(64, &mut set);
    CPU_SET(1023, &mut set);
    assert!(CPU_ISSET(0, &set));
    assert!(CPU_ISSET(63, &set));
    assert!(CPU_ISSET(64, &set));
    assert!(CPU_ISSET(1023, &set));
    assert!(!CPU_ISSET(1, &set));
    assert_eq!(CPU_COUNT(&set), 4);
    // Setting a member again changes nothing.
    CPU_SET(63, &mut set);
    assert_eq!(CPU_COUNT(&set), 4);
    CPU_CLR(63, &mut set);
    assert!(!CPU_ISSET(63, &set));
    assert_eq!(CPU_COUNT(&set), 3);
    // Clearing a non-member changes nothing.
    CPU_CLR(2, &mut set);
    assert_eq!(CPU_COUNT(&set), 3);
    CPU_ZERO(&mut set);
    assert_eq!(CPU_COUNT(&set), 0);
    assert!(!CPU_ISSET(0, &set));
}

#[test]
fn cpu_count_of_a_prefix() {
    let mut set = RawCpuSet::new();
    CPU_SET(3, &mut set);
    CPU_SET(100, &mut set);
    assert_eq!(CPU_COUNT_S(8, &set), 1);
    assert_eq!(CPU_COUNT_S(16, &set), 2);
    assert_eq!(CPU_COUNT_S(128, &set), 2);
}

#[test]
fn popcount_values() {
    assert_eq!(count_ones(0), 0);
    assert_eq!(count_ones(1), 1);
    assert_eq!(count_ones(0xff), 8);
    assert_eq!(count_ones(u64::MAX), 64);
    assert_eq!(count_ones(0x8000_0000_0000_0001), 2);
}

fn record(bytes: &mut Vec<u8>, a_type: u64, a_val: u64) {
    bytes.extend_from_slice(&a_type.to_le_bytes());
    bytes.extend_from_slice(&a_val.to_le_bytes());
}

#[test]
fn auxv_records_decode() {
    let mut bytes = Vec::new();
    record(&mut bytes, AT_PAGESZ as u64, 4096);
    record(&mut bytes, AT_HWCAP as u64, 0xbfebfbff);
    bytes.extend_from_slice(&[1, 2, 3]);
    let recs = decode_auxv_records(&bytes);
    assert_eq!(
        recs,
        vec![
            ElfAuxv { a_type: AT_PAGESZ, a_val: 4096 },
            ElfAuxv { a_type: AT_HWCAP, a_val: 0xbfebfbff },
        ]
    );
}

#[test]
fn auxv_values_stop_at_null() {
    let recs = [
        ElfAuxv { a_type: AT_PAGESZ, a_val: 4096 },
        ElfAuxv { a_type: AT_HWCAP, a_val: 1 },
        ElfAuxv { a_type: AT_HWCAP2, a_val: 2 },
        ElfAuxv { a_type: AT_SYSINFO_EHDR, a_val: 0x7fff_0000 },
        ElfAuxv { a_type: AT_PAGESZ, a_val: 16384 },
        ElfAuxv { a_type: AT_NULL, a_val: 0 },
        ElfAuxv { a_type: AT_PAGESZ, a_val: 65536 },
    ];
    let mut a = Auxv::new();
    a.apply_records(&recs);
    assert_eq!(a.page_size(), 16384);
    assert_eq!(a.linux_hwcap(), (1, 2));
    assert_eq!(a.sysinfo_ehdr(), 0x7fff_0000);
    let mut b = Auxv::new();
    b.apply_records(&[]);
    assert_eq!(b.page_size(), 0);
    assert_eq!(b.sysinfo_ehdr(), 0);
}

#[test]
fn rlimit_infinity_is_none() {
    assert_eq!(
        rlimit_from_raw(1024, RLIM_INFINITY),
        Rlimit { current: Some(1024), maximum: None }
    );
    assert_eq!(
        rlimit_from_raw(RLIM_INFINITY, 0),
        Rlimit { current: None, maximum: Some(0) }
    );
}

#[test]
fn priority_from_kernel_value() {
    // The kernel returns `20 - nice`.
    assert_eq!(priority_from_raw(RetReg::<R0>::from_asm(20)), Ok(0));
    assert_eq!(priority_from_raw(RetReg::<R0>::from_asm(40)), Ok(-20));
    assert_eq!(priority_from_raw(RetReg::<R0>::from_asm(1)), Ok(19));
    assert_eq!(
        priority_from_raw(RetReg::<R0>::from_asm((-3isize) as usize)),
        Err(Error::from_errno(3))
    );
}

#[test]
fn nice_clamps() {
    assert!(nice_uses_current(39));
    assert!(!nice_uses_current(40));
    assert!(!nice_uses_current(-40));
    assert_eq!(nice_priority(5, 0), 5);
    assert_eq!(nice_priority(10, 15), 19);
    assert_eq!(nice_priority(-30, 0), -20);
    assert_eq!(nice_priority(100, 0), 19);
    assert_eq!(nice_priority(-100, 0), -20);
}

#[test]
fn membarrier_numbers() {
    assert_eq!(MembarrierCommand::Global.as_raw(), 1);
    assert_eq!(MembarrierCommand::PrivateExpedited.as_raw(), 8);
    assert_eq!(MembarrierCommand::RegisterPrivateExpeditedRseq.as_raw(), 256);
}

#[test]
fn at_fdcwd_value() {
    assert_eq!(AT_FDCWD, -100);
}

#[test]
fn auxv_types_are_their_low_32_bits() {
    let recs = [
        ElfAuxv { a_type: (1usize << 32) | AT_PAGESZ, a_val: 8192 },
        ElfAuxv { a_type: 1usize << 32, a_val: 0 },
        ElfAuxv { a_type: AT_PAGESZ, a_val: 4096 },
    ];
    let mut a = Auxv::new();
    a.apply_records(&recs);
    // The second record reads as `AT_NULL` and ends the records.
    assert_eq!(a.page_size(), 8192);
}

#[test]
fn auxv_read_in_pieces() {
    let first = [
        ElfAuxv { a_type: AT_PAGESZ, a_val: 4096 },
        ElfAuxv { a_type: AT_HWCAP, a_val: 3 },
    ];
    let second = [
        ElfAuxv { a_type: AT_HWCAP, a_val: 5 },
        ElfAuxv { a_type: AT_SYSINFO_EHDR, a_val: 0x1000 },
        ElfAuxv { a_type: AT_NULL, a_val: 0 },
        ElfAuxv { a_type: AT_HWCAP2, a_val: 9 },
    ];
    let mut pieces = Auxv::new();
    pieces.apply_records(&first);
    pieces.apply_records(&second);
    let mut whole = Auxv::new();
    let all: Vec<ElfAuxv> = first.iter().chain(second.iter()).copied().collect();
    whole.apply_records(&all);
    assert_eq!(pieces, whole);
    assert_eq!(whole.linux_hwcap(), (5, 0));
}

#[test]
fn cpu_set_words() {
    let mut words = [0u64; 16];
    words[0] = 0b1010;
    words[15] = 1 << 63;
    let set = RawCpuSet::from_words(words);
    assert!(CPU_ISSET(1, &set));
    assert!(CPU_ISSET(3, &set));
    assert!(!CPU_ISSET(2, &set));
    assert!(CPU_ISSET(1023, &set));
    assert_eq!(CPU_COUNT(&set), 3);
    assert_eq!(set.to_words(), words);
}

#[test]
fn auxv_read_steps() {
    let mut buf = Vec::new();
    record(&mut buf, AT_PAGESZ as u64, 4096);
    record(&mut buf, AT_HWCAP as u64, 7);
    buf.extend_from_slice(&[0u8; 5]);
    let mut a = Auxv::new();
    // Two whole records and part of a third were read at offset 32.
    assert_eq!(a.read_step(32, &buf, Ok(37)), AuxvReadStep::ReadAt(64));
    assert_eq!(a.page_size(), 4096);
    assert_eq!(a.linux_hwcap(), (7, 0));
    let before = a;
    assert_eq!(a.read_step(64, &buf, Ok(0)), AuxvReadStep::Done);
    assert_eq!(a, before);
    assert_eq!(
        a.read_step(64, &buf, Err(Error::from_errno(4))),
        AuxvReadStep::ReadAt(64)
    );
    assert_eq!(
        a.read_step(64, &buf, Err(Error::from_errno(5))),
        AuxvReadStep::Failed(Error::from_errno(5))
    );
    assert_eq!(a, before);
}
