//! Unix-domain socket addressing and descriptor bookkeeping.
//!
//! The library holds the parts of a Unix socket client or server that are
//! pure computation: building the `sockaddr_un` wire form from a path,
//! classifying an address that the kernel reported, turning return codes into
//! errors, and converting read and write timeouts to and from `timeval`.
//! The system calls themselves are made by the caller, which hands the
//! library the plain values that came back.
//!
//! The crate targets 64-bit Linux: the `sockaddr_un` layout (a two-byte
//! family, then a 108-byte path) and a 64-bit `time_t` are taken from libc
//! as they stand there. The `Platform` tag chooses only how a reported
//! address is classified.

mod error;
mod sys;
pub mod addr;
pub mod fd;
pub mod timeout;

pub use error::Error;
pub use addr::{AddressKind, AddressView, Platform, RawSockAddr, SocketAddr};
pub use fd::Shutdown;
pub use timeout::Timeval;
