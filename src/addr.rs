//! The `sockaddr_un` wire form: building it from a path and classifying an
//! address that the kernel reported.
use vstd::prelude::*;
use vstd::slice::slice_subrange;
use crate::error::Error;
use crate::sys::{af_unix, sa_family_size, sockaddr_un_size};
pub use crate::sys::{sun_path_capacity, sun_path_start, unix_family};

verus! {

/// The capacity of the `sun_path` field, as libc lays out `sockaddr_un`:
/// the structure's size less the family field that precedes the path.
pub fn sun_path_len() -> (r: usize)
    ensures
        r == sun_path_capacity(),
{
    sockaddr_un_size() - sa_family_size()
}

/// The byte offset of `sun_path` within `sockaddr_un`: the path follows
/// the family field directly.
pub fn sun_path_offset() -> (r: usize)
    ensures
        r == sun_path_start(),
{
    sa_family_size()
}

/// The operating-system family whose address quirks decoding follows.
#[derive(Debug, Clone, Copy, PartialEq, Eq, Structural)]
pub enum Platform {
    /// Linux, which has the abstract namespace.
    Linux,
    /// Any other Unix; it reports unnamed addresses with a zeroed path
    /// and a nonzero length.
    Other,
}

/// The fields of a `sockaddr_un` as plain values.
#[derive(Debug)]
pub struct RawSockAddr {
    /// The `sun_family` field.
    pub family: u16,
    /// The `sun_path` field, `sun_path_capacity()` bytes.
    pub path: Vec<u8>,
}

/// A classified Unix-domain address, as a mathematical value.
pub enum AddressView {
    /// No address.
    Unnamed,
    /// A filesystem path, without its terminating NUL.
    Pathname(Seq<u8>),
    /// An abstract-namespace name, without its leading zero byte.
    Abstract(Seq<u8>),
}

/// A path starts an abstract address when its first byte is zero; a
/// non-empty path whose first byte is not zero is a pathname address.
pub open spec fn is_pathname(path: Seq<u8>) -> bool {
    path.len() > 0 && path[0] != 0
}

/// The socket-address length handed to the kernel with an encoded path:
/// the offset of `sun_path`, the path's bytes, and the terminating NUL of a
/// pathname address.
pub open spec fn encoded_len(path: Seq<u8>) -> nat {
    sun_path_start() as nat + path.len() + if is_pathname(path) { 1nat } else { 0nat }
}

/// The `sun_path` field that holds `path`: its bytes, then zeros.
pub open spec fn encoded_path(path: Seq<u8>) -> Seq<u8> {
    path + Seq::new((sun_path_capacity() - path.len()) as nat, |i: int| 0u8)
}

/// The encoding of `path`: the `sun_path` field and the length, or the
/// error when the path does not fit. A path must leave at least one byte of
/// the field unused, whether or not it needs a terminating NUL.
pub open spec fn encode_spec(path: Seq<u8>) -> Result<(Seq<u8>, nat), Error> {
    if path.len() > sun_path_capacity() && path.len() > 0 && path[0] == 0 {
        Err(Error::AbstractPathTooLong)
    } else if path.len() >= sun_path_capacity() {
        Err(Error::PathTooLong)
    } else {
        Ok((encoded_path(path), encoded_len(path)))
    }
}

/// The classification of a `sun_path` field with the reported length `len`.
pub open spec fn decode_spec(path: Seq<u8>, len: nat, platform: Platform) -> AddressView {
    let n = len - sun_path_start();
    if n == 0 || (platform == Platform::Other && path[0] == 0) {
        AddressView::Unnamed
    } else if path[0] == 0 {
        AddressView::Abstract(path.subrange(1, n))
    } else {
        AddressView::Pathname(path.subrange(0, n - 1))
    }
}

/// Builds the `sockaddr_un` for `path` and the length to pass with it.
///
/// A path whose first byte is zero is an abstract address and is copied
/// without a terminator; any other path is a pathname address and gets a
/// terminating NUL, which the zero fill supplies.
pub fn sockaddr_un(path: &[u8]) -> (r: Result<(RawSockAddr, u32), Error>)
    ensures
        match r {
            Ok((a, len)) => a.family == unix_family() && encode_spec(path@) == Ok::<
                (Seq<u8>, nat),
                Error,
            >((a.path@, len as nat)),
            Err(e) => encode_spec(path@) == Err::<(Seq<u8>, nat), Error>(e),
        },
{
    let n = path.len();
    let cap = sun_path_len();
    let off = sun_path_offset();
    if n > cap && n > 0 && path[0] == 0 {
        return Err(Error::AbstractPathTooLong);
    }
    if n >= cap {
        return Err(Error::PathTooLong);
    }
    let mut buf: Vec<u8> = Vec::with_capacity(cap);
    let mut i: usize = 0;
    while i < cap
        invariant
            n == path@.len(),
            cap == sun_path_capacity(),
            n < cap,
            i <= cap,
            buf@.len() == i,
            forall|j: int| 0 <= j < i ==> buf@[j] == encoded_path(path@)[j],
        decreases sun_path_capacity() - i,
    {
        if i < n {
            buf.push(path[i]);
        } else {
            buf.push(0);
        }
        i += 1;
    }
    assert(buf@ =~= encoded_path(path@));
    let mut len: usize = off + n;
    if n > 0 && path[0] != 0 {
        len += 1;
    }
    Ok((RawSockAddr { family: af_unix(), path: buf }, len as u32))
}

/// The kind of an address associated with a Unix socket, borrowing its
/// bytes from the `SocketAddr` it came from.
#[derive(Debug, Clone, Copy)]
pub enum AddressKind<'a> {
    /// An unnamed address.
    Unnamed,
    /// An address corresponding to a path on the filesystem, without its
    /// terminating NUL.
    Pathname(&'a [u8]),
    /// An address in the abstract namespace, without its leading zero byte.
    ///
    /// Abstract addresses are a nonportable Linux extension.
    Abstract(&'a [u8]),
}

impl<'a> View for AddressKind<'a> {
    type V = AddressView;

    open spec fn view(&self) -> AddressView {
        match *self {
            AddressKind::Unnamed => AddressView::Unnamed,
            AddressKind::Pathname(p) => AddressView::Pathname(p@),
            AddressKind::Abstract(b) => AddressView::Abstract(b@),
        }
    }
}

/// An address associated with a Unix socket, as the kernel reported it.
#[derive(Debug)]
pub struct SocketAddr {
    addr: RawSockAddr,
    len: u32,
    platform: Platform,
}

impl View for SocketAddr {
    type V = AddressView;

    closed spec fn view(&self) -> AddressView {
        decode_spec(self.addr.path@, self.len as nat, self.platform)
    }
}

impl Clone for SocketAddr {
    fn clone(&self) -> (r: SocketAddr)
        ensures
            r@ == self@,
    {
        proof {
            use_type_invariant(self);
        }
        let path = self.addr.path.clone();
        assert(path@ =~= self.addr.path@);
        SocketAddr {
            addr: RawSockAddr { family: self.addr.family, path },
            len: self.len,
            platform: self.platform,
        }
    }
}

impl SocketAddr {
    #[verifier::type_invariant]
    spec fn well_formed(&self) -> bool {
        &&& self.addr.path@.len() == sun_path_capacity()
        &&& sun_path_start() <= self.len <= sun_path_start() + sun_path_capacity()
        &&& self.addr.family == unix_family()
    }

    /// Takes the outcome of a call that fills in an address
    /// (`getsockname`, `getpeername`, `recvfrom`): its return value `ret`,
    /// the `errno` it left, and the address and length it wrote.
    ///
    /// A negative `ret` is the call's failure; an address of another family
    /// than the Unix domain is refused.
    pub fn new(ret: i32, errno: i32, addr: RawSockAddr, len: u32, platform: Platform) -> (r:
        Result<SocketAddr, Error>)
        requires
            addr.path@.len() == sun_path_capacity(),
            ret >= 0 && addr.family == unix_family() ==> sun_path_start() <= len
                <= sun_path_start() + sun_path_capacity(),
        ensures
            ret < 0 ==> r == Err::<SocketAddr, Error>(Error::Os(errno)),
            ret >= 0 && addr.family != unix_family() ==> r == Err::<SocketAddr, Error>(
                Error::NotUnixSocket,
            ),
            ret >= 0 && addr.family == unix_family() ==> r is Ok,
            r is Ok ==> r->Ok_0@ == decode_spec(addr.path@, len as nat, platform),
    {
        if ret < 0 {
            return Err(Error::Os(errno));
        }
        if addr.family != af_unix() {
            return Err(Error::NotUnixSocket);
        }
        Ok(SocketAddr { addr, len, platform })
    }

    /// Returns the value of the address.
    pub fn address<'a>(&'a self) -> (r: AddressKind<'a>)
        ensures
            r@ == self@,
    {
        proof {
            use_type_invariant(self);
        }
        let n = self.len as usize - sun_path_offset();
        let path = self.addr.path.as_slice();
        if n == 0 || (self.platform == Platform::Other && path[0] == 0) {
            AddressKind::Unnamed
        } else if path[0] == 0 {
            AddressKind::Abstract(slice_subrange(path, 1, n))
        } else {
            AddressKind::Pathname(slice_subrange(path, 0, n - 1))
        }
    }
}

/// Decoding the encoding of a pathname address that fits gives back the
/// same path, on every platform.
pub proof fn lemma_pathname_round_trip(path: Seq<u8>, platform: Platform)
    requires
        is_pathname(path),
        path.len() < sun_path_capacity(),
    ensures
        encode_spec(path) is Ok,
        decode_spec(encode_spec(path)->Ok_0.0, encode_spec(path)->Ok_0.1, platform)
            == AddressView::Pathname(path),
{
    let e = encoded_path(path);
    assert(e.subrange(0, path.len() as int) =~= path);
}

/// Decoding the encoding of an abstract address that fits gives back its
/// bytes after the leading zero byte, on Linux.
pub proof fn lemma_abstract_round_trip(name: Seq<u8>)
    requires
        name.len() > 0,
        name[0] == 0,
        name.len() < sun_path_capacity(),
    ensures
        encode_spec(name) is Ok,
        decode_spec(encode_spec(name)->Ok_0.0, encode_spec(name)->Ok_0.1, Platform::Linux)
            == AddressView::Abstract(name.subrange(1, name.len() as int)),
{
    let e = encoded_path(name);
    assert(e.subrange(1, name.len() as int) =~= name.subrange(1, name.len() as int));
}

/// A path that would fill the whole `sun_path` field or more is refused
/// with an invalid-argument error, abstract or not.
pub proof fn lemma_oversized_path_rejected(path: Seq<u8>)
    requires
        path.len() >= sun_path_capacity(),
    ensures
        encode_spec(path) is Err,
        !(encode_spec(path)->Err_0 is Os),
{
}

} // verus!
