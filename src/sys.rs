use vstd::prelude::*;

verus! {

/// The Unix-domain address family on Linux.
pub open spec fn unix_family() -> u16 {
    1
}

/// Relies on `libc::AF_UNIX`, whose Linux value is 1.
#[verifier::external_body]
pub(crate) fn af_unix() -> (r: u16)
    ensures
        r == unix_family(),
{
    libc::AF_UNIX as u16
}

/// The capacity of `sun_path` in libc's `sockaddr_un` on Linux.
pub open spec fn sun_path_capacity() -> usize {
    108
}

/// The offset of `sun_path` in libc's `sockaddr_un` on Linux.
pub open spec fn sun_path_start() -> usize {
    2
}

/// Relies on the size of `libc::sockaddr_un`, which on Linux is a
/// `sa_family_t` followed by `sun_path: [c_char; 108]`, with no padding.
#[verifier::external_body]
pub(crate) fn sockaddr_un_size() -> (r: usize)
    ensures
        r == sun_path_start() + sun_path_capacity(),
{
    std::mem::size_of::<libc::sockaddr_un>()
}

/// Relies on the size of `libc::sa_family_t`, which is `u16` on Linux.
#[verifier::external_body]
pub(crate) fn sa_family_size() -> (r: usize)
    ensures
        r == sun_path_start(),
{
    std::mem::size_of::<libc::sa_family_t>()
}

/// Relies on `libc::time_t`, a 64-bit signed integer on 64-bit Linux.
#[verifier::external_body]
pub(crate) fn time_t_max() -> (r: i64)
    ensures
        r == i64::MAX,
{
    libc::time_t::MAX as i64
}

/// Relies on `libc::size_t`, which is `usize`.
#[verifier::external_body]
pub(crate) fn size_t_max() -> (r: usize)
    ensures
        r == usize::MAX,
{
    libc::size_t::MAX as usize
}

/// Relies on `libc::SHUT_RD`, whose Linux value is 0.
#[verifier::external_body]
pub(crate) fn shut_rd() -> (r: i32)
    ensures
        r == 0,
{
    libc::SHUT_RD
}

/// Relies on `libc::SHUT_WR`, whose Linux value is 1.
#[verifier::external_body]
pub(crate) fn shut_wr() -> (r: i32)
    ensures
        r == 1,
{
    libc::SHUT_WR
}

/// Relies on `libc::SHUT_RDWR`, whose Linux value is 2.
#[verifier::external_body]
pub(crate) fn shut_rdwr() -> (r: i32)
    ensures
        r == 2,
{
    libc::SHUT_RDWR
}

} // verus!
