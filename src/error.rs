//! The closed set of failure kinds and the conversion of a typed result
//! into the raw word handed back to user space.
use vstd::prelude::*;

verus! {

pub const EBADF: usize = 9;
pub const EAGAIN: usize = 11;
pub const EFAULT: usize = 14;
pub const EINVAL: usize = 22;
pub const ENOSYS: usize = 38;
pub const EOVERFLOW: usize = 75;
pub const EOPNOTSUPP: usize = 95;

/// A failure kind; each has a stable errno-style code.
#[derive(Clone, Copy, Debug, PartialEq, Eq, Structural)]
pub enum Error {
    InvalidArgument,
    NoSuchSyscall,
    BadFileDescriptor,
    BadAddress,
    Overflow,
    WouldBlock,
    NotSupported,
}

/// The code of each failure kind.
pub open spec fn errno_of(e: Error) -> usize {
    match e {
        Error::InvalidArgument => EINVAL,
        Error::NoSuchSyscall => ENOSYS,
        Error::BadFileDescriptor => EBADF,
        Error::BadAddress => EFAULT,
        Error::Overflow => EOVERFLOW,
        Error::WouldBlock => EAGAIN,
        Error::NotSupported => EOPNOTSUPP,
    }
}

/// The raw word of a result: a success value as it is, a failure as its
/// negated code in two's complement.
pub open spec fn mux_spec(r: Result<usize, Error>) -> usize {
    match r {
        Ok(v) => v,
        Err(e) => (usize::MAX - errno_of(e) + 1) as usize,
    }
}

impl Error {
    pub fn errno(&self) -> (r: usize)
        ensures
            r == errno_of(*self),
            1 <= r <= 4095,
    {
        match self {
            Error::InvalidArgument => EINVAL,
            Error::NoSuchSyscall => ENOSYS,
            Error::BadFileDescriptor => EBADF,
            Error::BadAddress => EFAULT,
            Error::Overflow => EOVERFLOW,
            Error::WouldBlock => EAGAIN,
            Error::NotSupported => EOPNOTSUPP,
        }
    }

    /// Turns a typed result into the word returned to user space.
    pub fn mux(result: Result<usize, Error>) -> (r: usize)
        ensures
            r == mux_spec(result),
    {
        match result {
            Ok(v) => v,
            Err(e) => usize::MAX - e.errno() + 1,
        }
    }
}

/// Every failure word lies in the top page of the word range, so a caller
/// tells failure from success by that range alone.
pub proof fn lemma_failure_words_are_high(e: Error)
    ensures
        mux_spec(Err(e)) > usize::MAX - 4096,
        mux_spec(Err(e)) as int == usize::MAX as int + 1 - errno_of(e) as int,
{
}

} // verus!
