//! I/O: error codes, system-call results, polling and access probes.
pub mod advice;
pub mod epoll;
pub mod errno;
pub mod error;
pub mod poll_fd;
pub mod read_write;
pub mod tty;

pub use advice::Advice;
pub use error::Error;
pub use poll_fd::{PollFd, PollFlags};
