//! Errors reported across the device boundary.
use vstd::prelude::*;

verus! {

/// What went wrong, as seen by the engine.
#[derive(Debug, Clone, Copy, PartialEq, Eq, Structural)]
pub enum ErrorKind {
    /// The operation or feature is not built for this platform.
    Unimplemented,
    /// The secure hardware reported a failure.
    HardwareFailure,
    /// A cryptographic primitive failed.
    CryptoFailure,
    /// An argument was not acceptable.
    InvalidArgument,
    /// Any other failure.
    UnknownError,
}

/// An error with its kind and a description for logs.
#[derive(Debug)]
pub struct Error {
    pub kind: ErrorKind,
    pub message: String,
}

impl Error {
    /// An error of the given kind.
    pub fn new(kind: ErrorKind, message: &str) -> (r: Error)
        ensures
            r.kind == kind,
            r.message@ == message@,
    {
        Error { kind, message: message.to_owned() }
    }

    /// The "not supported on this device" error.
    pub fn unimplemented(message: &str) -> (r: Error)
        ensures
            r.kind == ErrorKind::Unimplemented,
            r.message@ == message@,
    {
        Error::new(ErrorKind::Unimplemented, message)
    }
}

} // verus!
