# rustix (verified core)

The logic of a Linux system-call layer for x86-64, written in Verus and
proved against its contracts.

- `src/` is the verified library: system-call argument and return-value
  encodings (`reg`, `conv`), error codes (`io::error`, `io::errno`), device
  numbers and file types (`fs`), socket addresses and their byte images,
  socket options and ancillary-data layout (`net`), CPU sets, auxv records,
  resource limits and priorities (`process`), clock ids and sleep results
  (`time`), program headers and thread-local storage (`elf`, `thread`), and
  the parsing of the vDSO image and the lookup of its symbols (`vdso`,
  `vdso_sym`).
- `app/` performs the system calls themselves with inline assembly, reads
  `/proc/self/auxv` and the vDSO's memory, and hands plain values to the
  library and back.
- `tests/` runs the library on concrete values.
