//! The error abstraction shared by every reply contract.
//!
//! A handler that cannot satisfy a request returns a value of the handler's
//! error type instead of calling a success terminal method; the kernel then
//! receives the corresponding OS error code.  The common construction path
//! is from a raw OS error code; the general one wraps an I/O failure.

use vstd::prelude::*;

verus! {

/// An I/O failure as this layer models it: at most a raw OS error code.
///
/// The transport encoder only ever extracts the raw code, so the code is
/// all this layer carries; a failure without a code stands for an I/O
/// error of some other origin.
#[derive(Clone, Copy, Debug, PartialEq, Eq, Structural)]
pub struct IoFailure {
    /// The raw OS error code, when the failure originated in one.
    pub raw_os_error: Option<i32>,
}

impl IoFailure {
    /// The failure that an explicit OS error code gives rise to.
    pub fn from_raw_os_error(code: i32) -> (r: Self)
        ensures
            r.raw_os_error == Some(code),
    {
        IoFailure { raw_os_error: Some(code) }
    }
}

/// The error values caused by the filesystem.
///
/// Every reply contract uses an implementation of this trait as its failure
/// channel, so callers have one error vocabulary regardless of operation
/// kind.  Construction is pure: no side effects, no retries.
pub trait Error: Sized {
    /// What [`Error::from_io_error`] returns for a given failure.
    spec fn from_io_spec(io_error: IoFailure) -> Self;

    /// Construct the error value from an I/O error.
    fn from_io_error(io_error: IoFailure) -> (r: Self)
        ensures
            r == Self::from_io_spec(io_error),
    ;

    /// Construct the error value from an OS error code.
    ///
    /// Defaults to wrapping an I/O failure derived from the code.
    fn from_code(code: i32) -> (r: Self)
        ensures
            r == Self::from_io_spec((IoFailure { raw_os_error: Some(code) })),
    {
        Self::from_io_error(IoFailure::from_raw_os_error(code))
    }
}

impl Error for IoFailure {
    open spec fn from_io_spec(io_error: IoFailure) -> Self {
        io_error
    }

    fn from_io_error(io_error: IoFailure) -> (r: Self) {
        io_error
    }
}

/// Equivalent to `<E as Error>::from_code(code)`.
pub fn error_code<E: Error>(code: i32) -> (r: E)
    ensures
        r == E::from_io_spec((IoFailure { raw_os_error: Some(code) })),
{
    E::from_code(code)
}

} // verus!
