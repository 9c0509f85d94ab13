use vstd::prelude::*;

verus! {

/// The kernel error codes that this library produces.
#[derive(Clone, Copy, Debug, PartialEq, Eq, Structural)]
pub enum Error {
    /// `ENOENT`: no such entry.
    NoEnt,
    /// `EAGAIN`: try again.
    Again,
    /// `ENOMEM`: out of memory.
    NoMem,
    /// `EFAULT`: bad address.
    Fault,
    /// `EBUSY`: resource busy.
    Busy,
    /// `EINVAL`: invalid argument.
    Inval,
    /// `ENOSYS`: operation not implemented.
    NoSys,
}

/// Result type of the library's fallible operations.
pub type KernelResult<T> = Result<T, Error>;

impl Error {
    /// The positive Linux errno number of an error.
    pub open spec fn errno_spec(self) -> i32 {
        match self {
            Error::NoEnt => 2,
            Error::Again => 11,
            Error::NoMem => 12,
            Error::Fault => 14,
            Error::Busy => 16,
            Error::Inval => 22,
            Error::NoSys => 38,
        }
    }

    /// Returns the negative errno value that the kernel's C side expects.
    pub fn to_errno(&self) -> (r: i32)
        ensures
            r == -self.errno_spec(),
    {
        match self {
            Error::NoEnt => -2,
            Error::Again => -11,
            Error::NoMem => -12,
            Error::Fault => -14,
            Error::Busy => -16,
            Error::Inval => -22,
            Error::NoSys => -38,
        }
    }
}

} // verus!
