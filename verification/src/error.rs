//! Error kinds of the capability contract and the mapping of native errors
//! onto them.

use vstd::prelude::*;

verus! {

/// Why an operation on a device did not complete.
#[derive(Debug, PartialEq, Eq)]
pub enum Error {
    /// The platform or the device class has no mechanism for the operation.
    UnsupportedOperation,
    /// A native call failed; the number is the system's error code.
    DeviceError(i32),
    /// A discard did not provably zero the probed region.
    VerificationFailed,
    /// A failure that carries no system error code, described in words.
    Other(String),
}

/// The mathematical value of an [`Error`]: the message as a sequence of
/// characters, the code as an integer.
pub enum ErrorView {
    UnsupportedOperation,
    DeviceError(int),
    VerificationFailed,
    Other(Seq<char>),
}

impl View for Error {
    type V = ErrorView;

    open spec fn view(&self) -> ErrorView {
        match *self {
            Error::UnsupportedOperation => ErrorView::UnsupportedOperation,
            Error::DeviceError(code) => ErrorView::DeviceError(code as int),
            Error::VerificationFailed => ErrorView::VerificationFailed,
            Error::Other(message) => ErrorView::Other(message@),
        }
    }
}

/// An error as a native control-call layer reports it.
#[derive(Debug, Clone, Copy, PartialEq, Eq, Structural)]
pub enum NativeError {
    /// The system call failed with this error number.
    Sys(i32),
    /// A path could not be handed to the system.
    InvalidPath,
    /// A string from the system was not valid UTF-8.
    InvalidUtf8,
    /// The native layer has no binding for the operation.
    UnsupportedOperation,
}

/// What [`to_io`] returns, as a mathematical value.
pub open spec fn spec_to_io(err: NativeError) -> ErrorView {
    match err {
        NativeError::Sys(errno) => ErrorView::DeviceError(errno as int),
        NativeError::InvalidPath => ErrorView::Other("InvalidPath"@),
        NativeError::InvalidUtf8 => ErrorView::Other("InvalidUtf8"@),
        NativeError::UnsupportedOperation => ErrorView::UnsupportedOperation,
    }
}

/// An error without a system code, described by `msg`.
pub fn io_error(msg: &str) -> (err: Error)
    ensures
        err@ == ErrorView::Other(msg@),
{
    Error::Other(msg.to_owned())
}

/// Maps a native error onto the contract's error kinds: a system error number
/// becomes a `DeviceError` with that number, a missing binding becomes
/// `UnsupportedOperation`, and the two path and string failures become
/// described errors.
pub fn to_io(err: NativeError) -> (res: Error)
    ensures
        res@ == spec_to_io(err),
{
    match err {
        NativeError::Sys(errno) => Error::DeviceError(errno),
        NativeError::InvalidPath => io_error("InvalidPath"),
        NativeError::InvalidUtf8 => io_error("InvalidUtf8"),
        NativeError::UnsupportedOperation => Error::UnsupportedOperation,
    }
}

/// Maps the outcome of a native call onto the contract's result type: a
/// value is kept as it is, an error is mapped as [`to_io`] maps it.
pub fn from_native<T>(raw: Result<T, NativeError>) -> (res: Result<T, Error>)
    ensures
        match raw {
            Ok(value) => res == Ok::<T, Error>(value),
            Err(err) => res is Err && res->Err_0@ == spec_to_io(err),
        },
{
    match raw {
        Ok(value) => Ok(value),
        Err(err) => Err(to_io(err)),
    }
}

} // verus!
