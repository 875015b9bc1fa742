use vstd::prelude::*;

verus! {

/// The failures of the library's operations.
///
/// All but `Os` are invalid-argument errors found before or after the
/// system call; `Os` carries the `errno` of a failed call unchanged.
#[derive(Debug, Clone, Copy, PartialEq, Eq, Structural)]
pub enum Error {
    /// An abstract address longer than the path field.
    AbstractPathTooLong,
    /// An address that does not fit in the path field with room to spare.
    PathTooLong,
    /// The address the kernel reported is not of the Unix-domain family.
    NotUnixSocket,
    /// A timeout of zero length was asked for.
    ZeroTimeout,
    /// A system call failed with this `errno`.
    Os(i32),
}

impl Error {
    /// Whether this is one of the invalid-argument errors.
    pub fn is_invalid_input(&self) -> (r: bool)
        ensures
            r == !(self is Os),
    {
        !matches!(self, Error::Os(_))
    }

    /// The human-readable message of an invalid-argument error; for an
    /// operating-system error, a generic one.
    pub fn message(&self) -> (r: &'static str)
        ensures
            *self == Error::AbstractPathTooLong ==> r@ == "path must be no longer than SUN_LEN"@,
            *self == Error::PathTooLong ==> r@ == "path must be shorter than SUN_LEN"@,
            *self == Error::NotUnixSocket ==> r@
                == "file descriptor did not correspond to a Unix socket"@,
            *self == Error::ZeroTimeout ==> r@ == "cannot set a 0 duration timeout"@,
            self is Os ==> r@ == "operating system error"@,
    {
        proof {
            reveal_strlit("path must be no longer than SUN_LEN");
            reveal_strlit("path must be shorter than SUN_LEN");
            reveal_strlit("file descriptor did not correspond to a Unix socket");
            reveal_strlit("cannot set a 0 duration timeout");
            reveal_strlit("operating system error");
        }
        match self {
            Error::AbstractPathTooLong => "path must be no longer than SUN_LEN",
            Error::PathTooLong => "path must be shorter than SUN_LEN",
            Error::NotUnixSocket => "file descriptor did not correspond to a Unix socket",
            Error::ZeroTimeout => "cannot set a 0 duration timeout",
            Error::Os(_) => "operating system error",
        }
    }
}

} // verus!
