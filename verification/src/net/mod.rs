//! Sockets: addresses, their byte images, options and ancillary data.
pub mod addr;
pub mod cmsg;
pub mod sockaddr;
pub mod sockopt;
pub mod types;

pub use addr::{SocketAddrAny, SocketAddrUnix, SocketAddrV4, SocketAddrV6};
pub use types::{AddressFamily, Protocol, Shutdown, SocketType};
