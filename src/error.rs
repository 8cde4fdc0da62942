//! Errors of the reset bridge and their numeric form.
use vstd::prelude::*;

verus! {

/// Invalid argument (`EINVAL`).
pub const EINVAL: i32 = 22;

/// Out of memory (`ENOMEM`).
pub const ENOMEM: i32 = 12;

/// Operation not supported (`ENOTSUPP`).
pub const ENOTSUPP: i32 = 524;

/// Largest error number that the numeric convention admits.
pub const MAX_ERRNO: i32 = 4095;

/// What can go wrong in registration and in a line operation.
#[derive(Clone, Copy, Debug, PartialEq, Eq, Structural)]
pub enum Error {
    /// The registration object has already been registered.
    AlreadyRegistered,
    /// The driver does not implement the requested operation.
    NotSupported,
    /// The host's registration entry point refused, with its raw status.
    ExternalRejected(i32),
    /// A failure reported by a driver operation, as a negative error number.
    Driver(i32),
}

/// A raw status kept if it is a negative error number, else `-EINVAL`.
pub open spec fn normalized_errno(code: i32) -> i32 {
    if -MAX_ERRNO <= code && code < 0 {
        code
    } else {
        (-EINVAL) as i32
    }
}

impl Error {
    /// The negative error number that stands for this error.
    pub open spec fn spec_errno(self) -> i32 {
        match self {
            Error::AlreadyRegistered => (-EINVAL) as i32,
            Error::NotSupported => (-ENOTSUPP) as i32,
            Error::ExternalRejected(c) => normalized_errno(c),
            Error::Driver(c) => normalized_errno(c),
        }
    }

    /// Builds a driver failure from a negative error number; anything else
    /// becomes `-EINVAL`.
    pub fn from_errno(code: i32) -> (r: Error)
        ensures
            r == Error::Driver(normalized_errno(code)),
    {
        if -MAX_ERRNO <= code && code < 0 {
            Error::Driver(code)
        } else {
            Error::Driver(-EINVAL)
        }
    }

    /// The negative error number of this error.
    pub fn to_errno(&self) -> (r: i32)
        ensures
            r == self.spec_errno(),
            r < 0,
    {
        match self {
            Error::AlreadyRegistered => (-EINVAL) as i32,
            Error::NotSupported => (-ENOTSUPP) as i32,
            Error::ExternalRejected(c) => if -MAX_ERRNO <= *c && *c < 0 {
                *c
            } else {
                -EINVAL
            },
            Error::Driver(c) => if -MAX_ERRNO <= *c && *c < 0 {
                *c
            } else {
                -EINVAL
            },
        }
    }
}

/// The numeric status that a typed operation result stands for: the payload
/// on success, the negative error number on failure.
pub open spec fn result_code(res: Result<i32, Error>) -> i32 {
    match res {
        Ok(v) => v,
        Err(e) => e.spec_errno(),
    }
}

/// Turns a typed operation result into the host's signed status convention.
pub fn from_result(res: Result<i32, Error>) -> (r: i32)
    ensures
        r == result_code(res),
        res is Err ==> r < 0,
{
    match res {
        Ok(v) => v,
        Err(e) => e.to_errno(),
    }
}

} // verus!
