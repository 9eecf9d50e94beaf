//! Verified core of a Linux system-call layer for 64-bit targets: device
//! numbers, file types, error codes, system-call argument and return
//! encodings, socket-address layouts, CPU sets, auxv records and vDSO ELF
//! parsing.

pub mod bytes;
pub mod conv;
pub mod elf;
pub mod fs;
pub mod io;
pub mod net;
pub mod process;
pub mod reg;
pub mod thread;
pub mod time;
pub mod vdso;
pub mod vdso_sym;
