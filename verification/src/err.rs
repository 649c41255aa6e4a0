//! Errors of the dispatch core, and the rule that tells an early client
//! disconnect from a real I/O failure.

use crate::route::PatternFault;
use vstd::prelude::*;

verus! {

/// `std::io::Error`. It is carried through as an opaque value; all that is
/// read of it is its kind.
#[verifier::external_type_specification]
#[verifier::external_body]
pub struct ExIoError(std::io::Error);

/// The kinds of I/O error between which the dispatch core distinguishes.
#[derive(Clone, Copy, Debug, PartialEq, Eq, Structural)]
pub enum IoFault {
    /// The pipe to the client is closed.
    BrokenPipe,
    /// The connection was ended by the client's side.
    ConnectionAborted,
    /// The client's side refused the connection.
    ConnectionRefused,
    /// The connection was reset by the client's side.
    ConnectionReset,
    /// Any other kind of failure.
    Other,
}

impl IoFault {
    /// Whether the fault only says that the client went away before the
    /// exchange was over.
    pub open spec fn client_closed(self) -> bool {
        self != IoFault::Other
    }

    /// Tells whether the fault is one of the four that a client causes by
    /// closing its end early.
    pub fn is_client_closed(self) -> (b: bool)
        ensures
            b == self.client_closed(),
    {
        match self {
            IoFault::BrokenPipe => true,
            IoFault::ConnectionAborted => true,
            IoFault::ConnectionRefused => true,
            IoFault::ConnectionReset => true,
            IoFault::Other => false,
        }
    }
}

/// The fault class of an I/O error, as `std::io::Error::kind` reports it.
pub uninterp spec fn io_fault_of(e: std::io::Error) -> IoFault;

/// Reads the kind of an I/O error with `std::io::Error::kind`.
///
/// Trusted: the result is the class named by [`io_fault_of`]. The four
/// connection kinds map to the variants of the same name, every other kind
/// to `Other`.
#[verifier::external_body]
pub(crate) fn io_fault(e: &std::io::Error) -> (k: IoFault)
    ensures
        k == io_fault_of(*e),
{
    match e.kind() {
        std::io::ErrorKind::BrokenPipe => IoFault::BrokenPipe,
        std::io::ErrorKind::ConnectionAborted => IoFault::ConnectionAborted,
        std::io::ErrorKind::ConnectionRefused => IoFault::ConnectionRefused,
        std::io::ErrorKind::ConnectionReset => IoFault::ConnectionReset,
        _ => IoFault::Other,
    }
}

/// What is left of the outcome of a write or flush once early client
/// disconnects are forgiven.
pub open spec fn forgiven(result: Result<(), std::io::Error>) -> Result<(), std::io::Error> {
    match result {
        Ok(()) => Ok(()),
        Err(e) => if io_fault_of(e).client_closed() {
            Ok(())
        } else {
            Err(e)
        },
    }
}

/// Suppresses the errors that a client causes by closing the connection
/// before the response is fully written; every other error is handed on
/// unchanged.
pub fn ignore_client_closing_errors(result: Result<(), std::io::Error>) -> (r: Result<
    (),
    std::io::Error,
>)
    ensures
        r == forgiven(result),
{
    match result {
        Ok(()) => Ok(()),
        Err(e) => {
            if io_fault(&e).is_client_closed() {
                Ok(())
            } else {
                Err(e)
            }
        },
    }
}

/// Everything that can go wrong in the dispatch core.
#[derive(Debug)]
pub enum BeakError {
    /// An I/O failure on the connection.
    IOError(std::io::Error),
    /// A route pattern collides with one that is registered already.
    DuplicatePattern(String),
    /// A route pattern that the matcher cannot take, with the reason.
    InvalidPattern(String, PatternFault),
    /// A body part of `size` bytes for an upload buffer of `limit` bytes
    /// that does not take more.
    UploadTooLarge { limit: usize, size: usize },
}

/// The result of an operation of the dispatch core or of a handler.
pub type BeakResult<T> = Result<T, BeakError>;

impl From<std::io::Error> for BeakError {
    fn from(e: std::io::Error) -> (r: BeakError) {
        BeakError::IOError(e)
    }
}

impl vstd::std_specs::convert::FromSpecImpl<std::io::Error> for BeakError {
    open spec fn obeys_from_spec() -> bool {
        true
    }

    open spec fn from_spec(e: std::io::Error) -> BeakError {
        BeakError::IOError(e)
    }
}

} // verus!
