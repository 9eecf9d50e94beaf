//! Threads: the executable's thread-local storage.
pub mod tls;
