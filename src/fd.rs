//! Bookkeeping around the system calls on a socket descriptor: turning
//! their return values into results, choosing their arguments.
use vstd::prelude::*;
use crate::addr::{decode_spec, RawSockAddr, SocketAddr};
use crate::error::Error;
use crate::sys::{
    shut_rd, shut_rdwr, shut_wr, size_t_max, sun_path_capacity, sun_path_start, unix_family,
};

verus! {

/// The halves of a connection that `shutdown` can close.
#[derive(Debug, Clone, Copy, PartialEq, Eq, Structural)]
pub enum Shutdown {
    /// Further reads are refused.
    Read,
    /// Further writes are refused.
    Write,
    /// Both reads and writes are refused.
    Both,
}

/// The backlog of pending connections that a listening socket is given.
pub const LISTEN_BACKLOG: i32 = 128;

/// The `how` argument of `shutdown(2)` for `how`: `SHUT_RD`, `SHUT_WR` or
/// `SHUT_RDWR`.
pub fn shutdown_how(how: Shutdown) -> (r: i32)
    ensures
        r == match how {
            Shutdown::Read => 0i32,
            Shutdown::Write => 1i32,
            Shutdown::Both => 2i32,
        },
{
    match how {
        Shutdown::Read => shut_rd(),
        Shutdown::Write => shut_wr(),
        Shutdown::Both => shut_rdwr(),
    }
}

/// The result of a system call that returns an `int`: a negative value is
/// a failure with the `errno` that the call left.
pub fn cvt(v: i32, errno: i32) -> (r: Result<i32, Error>)
    ensures
        v < 0 ==> r == Err::<i32, Error>(Error::Os(errno)),
        v >= 0 ==> r == Ok::<i32, Error>(v),
{
    if v < 0 {
        Err(Error::Os(errno))
    } else {
        Ok(v)
    }
}

/// The result of a system call that returns an `ssize_t`, as `cvt` does.
pub fn cvt_s(v: isize, errno: i32) -> (r: Result<isize, Error>)
    ensures
        v < 0 ==> r == Err::<isize, Error>(Error::Os(errno)),
        v >= 0 ==> r == Ok::<isize, Error>(v),
{
    if v < 0 {
        Err(Error::Os(errno))
    } else {
        Ok(v)
    }
}

/// The byte count to hand to `send`, `recv`, `sendto` or `recvfrom` for a
/// buffer of `buf.len()` bytes: its length, capped at the largest `size_t`.
pub fn calc_len(buf: &[u8]) -> (r: usize)
    ensures
        r == buf@.len(),
{
    let max = size_t_max();
    if buf.len() < max {
        buf.len()
    } else {
        max
    }
}

/// The outcome of `recvfrom`: the byte count it returned, the `errno` it
/// left, and the sender's address and length that it wrote.
///
/// A count of zero is a genuine empty datagram; only a negative count is a
/// failure.
pub fn recv_from_result(
    count: isize,
    errno: i32,
    addr: RawSockAddr,
    len: u32,
    platform: crate::addr::Platform,
) -> (r: Result<(usize, SocketAddr), Error>)
    requires
        addr.path@.len() == sun_path_capacity(),
        count >= 0 && addr.family == unix_family() ==> sun_path_start() <= len
            <= sun_path_start() + sun_path_capacity(),
    ensures
        count < 0 ==> r == Err::<(usize, SocketAddr), Error>(Error::Os(errno)),
        count >= 0 && addr.family != unix_family() ==> r == Err::<(usize, SocketAddr), Error>(
            Error::NotUnixSocket,
        ),
        count >= 0 && addr.family == unix_family() ==> r is Ok,
        r is Ok ==> r->Ok_0.0 == count && r->Ok_0.1@ == decode_spec(
            addr.path@,
            len as nat,
            platform,
        ),
{
    let status: i32 = if count > 0 {
        1
    } else if count == 0 {
        0
    } else {
        -1
    };
    match SocketAddr::new(status, errno, addr, len, platform) {
        Ok(a) => Ok((count as usize, a)),
        Err(e) => Err(e),
    }
}

} // verus!
