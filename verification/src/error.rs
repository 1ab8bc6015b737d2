//! The failure of an exchange: either the connection failed, or niri declined.

use vstd::prelude::*;

verus! {

/// `std::io::Error`, carried through as an opaque value.
#[verifier::external_type_specification]
#[verifier::external_body]
pub struct ExIoError(std::io::Error);

/// The kinds of I/O error that the library raises by itself.
#[derive(Clone, Copy, Debug)]
pub enum FailureKind {
    /// Something that was looked for is not there.
    NotFound,
    /// The data ended before it was complete.
    UnexpectedEof,
}

/// The `std::io::Error` of this kind that carries this message.
pub uninterp spec fn new_io_error(kind: FailureKind, message: Seq<char>) -> std::io::Error;

/// Calls `std::io::Error::new` with the `ErrorKind` of the same name and the
/// message. Trusted: the error depends on the kind and the message alone.
#[verifier::external_body]
pub(crate) fn make_io_error(kind: FailureKind, message: String) -> (error: std::io::Error)
    ensures
        error == new_io_error(kind, message@),
{
    let kind = match kind {
        FailureKind::NotFound => std::io::ErrorKind::NotFound,
        FailureKind::UnexpectedEof => std::io::ErrorKind::UnexpectedEof,
    };
    std::io::Error::new(kind, message)
}

/// Why an exchange with niri failed.
#[derive(Debug)]
pub enum NiriReplyError {
    /// The connection failed, or what came over it could not be decoded.
    IO(std::io::Error),
    /// Niri understood the request and answered with an error message.
    Niri(String),
}

impl NiriReplyError {
    /// The cause of a local failure, if this is one.
    pub fn io_error(self) -> (cause: Option<std::io::Error>)
        ensures
            cause == match self {
                NiriReplyError::IO(err) => Some(err),
                NiriReplyError::Niri(_) => None,
            },
    {
        match self {
            NiriReplyError::IO(err) => Some(err),
            NiriReplyError::Niri(_) => None,
        }
    }

    /// The message niri answered with, if this is a remote error.
    pub fn niri_error_msg(self) -> (message: Option<String>)
        ensures
            message == match self {
                NiriReplyError::Niri(msg) => Some(msg),
                NiriReplyError::IO(_) => None,
            },
    {
        match self {
            NiriReplyError::Niri(msg) => Some(msg),
            NiriReplyError::IO(_) => None,
        }
    }
}

impl From<std::io::Error> for NiriReplyError {
    fn from(value: std::io::Error) -> (error: Self) {
        NiriReplyError::IO(value)
    }
}

impl vstd::std_specs::convert::FromSpecImpl<std::io::Error> for NiriReplyError {
    open spec fn obeys_from_spec() -> bool {
        true
    }

    open spec fn from_spec(value: std::io::Error) -> Self {
        NiriReplyError::IO(value)
    }
}

} // verus!
