//! Files: device numbers, file types, modes, flags and directory entries.
pub mod dir;
pub mod makedev;
pub mod types;
pub mod wasi_open;

pub use dir::{Dir, DirEntry};
pub use makedev::{major, makedev, minor, Dev};
pub use types::{Advice, FileType, Mode, OFlags, RawMode};
