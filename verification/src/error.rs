//! The errors that end an exchange, a fetch or an update cycle.

use vstd::prelude::*;

use crate::message::{Failure, RequestKind};

verus! {

/// An error of the driver. None of them is fatal to the process: each ends
/// the current update cycle at most.
#[derive(Clone, Debug, PartialEq, Eq)]
pub enum Error {
    /// Connecting, sending or receiving failed.
    Io,
    /// A message arrived that could not be decoded.
    Decode,
    /// The peer closed the connection.
    ConnectionClosed,
    /// The firmware service of the platform reported an error.
    Platform,
    /// The sink refused bytes of the file being read.
    UpdateWriteFailed,
    /// The server speaks another protocol version than the client.
    VersionMismatch { offered: String },
    /// The server demands authentication, which the client cannot perform.
    AuthenticationRequired,
    /// The server answered a request with a message of the wrong kind.
    UnexpectedResponse(RequestKind),
    /// The driver reported something that does not answer what it was asked.
    UnexpectedEvent,
    /// The server refused a request, for the reason it gave.
    Rejected { request: RequestKind, reason: String },
    /// The path does not resolve to a file.
    FileNotFound,
    /// The path names a directory, which cannot be read as a file.
    IsDirectory,
    /// The file is longer than an offset can express.
    OffsetOverflow,
    /// The session has no handle left to allocate.
    NoFreeHandle,
    /// The running firmware carries no version information.
    FirmwareInfoMissing,
    /// A required configuration entry is absent.
    MissingConfig(String),
}

/// The mathematical content of an [`Error`].
pub enum ErrorView {
    Io,
    Decode,
    ConnectionClosed,
    Platform,
    UpdateWriteFailed,
    VersionMismatch { offered: Seq<char> },
    AuthenticationRequired,
    UnexpectedResponse(RequestKind),
    UnexpectedEvent,
    Rejected { request: RequestKind, reason: Seq<char> },
    FileNotFound,
    IsDirectory,
    OffsetOverflow,
    NoFreeHandle,
    FirmwareInfoMissing,
    MissingConfig(Seq<char>),
}

impl View for Error {
    type V = ErrorView;

    open spec fn view(&self) -> ErrorView {
        match *self {
            Error::Io => ErrorView::Io,
            Error::Decode => ErrorView::Decode,
            Error::ConnectionClosed => ErrorView::ConnectionClosed,
            Error::Platform => ErrorView::Platform,
            Error::UpdateWriteFailed => ErrorView::UpdateWriteFailed,
            Error::VersionMismatch { offered } => ErrorView::VersionMismatch { offered: offered@ },
            Error::AuthenticationRequired => ErrorView::AuthenticationRequired,
            Error::UnexpectedResponse(kind) => ErrorView::UnexpectedResponse(kind),
            Error::UnexpectedEvent => ErrorView::UnexpectedEvent,
            Error::Rejected { request, reason } => ErrorView::Rejected { request, reason: reason@ },
            Error::FileNotFound => ErrorView::FileNotFound,
            Error::IsDirectory => ErrorView::IsDirectory,
            Error::OffsetOverflow => ErrorView::OffsetOverflow,
            Error::NoFreeHandle => ErrorView::NoFreeHandle,
            Error::FirmwareInfoMissing => ErrorView::FirmwareInfoMissing,
            Error::MissingConfig(key) => ErrorView::MissingConfig(key@),
        }
    }
}

/// The error that a failure of the driver amounts to.
pub open spec fn failure_error(failure: Failure) -> ErrorView {
    match failure {
        Failure::Io => ErrorView::Io,
        Failure::Decode => ErrorView::Decode,
        Failure::Closed => ErrorView::ConnectionClosed,
        Failure::Platform => ErrorView::Platform,
        Failure::Write => ErrorView::UpdateWriteFailed,
        Failure::Unexpected => ErrorView::UnexpectedEvent,
    }
}

impl Error {
    /// The error that a failure of the driver amounts to.
    pub fn from_failure(failure: Failure) -> (error: Error)
        ensures
            error@ == failure_error(failure),
    {
        match failure {
            Failure::Io => Error::Io,
            Failure::Decode => Error::Decode,
            Failure::Closed => Error::ConnectionClosed,
            Failure::Platform => Error::Platform,
            Failure::Write => Error::UpdateWriteFailed,
            Failure::Unexpected => Error::UnexpectedEvent,
        }
    }
}

/// The view of a result whose error is an [`Error`].
pub open spec fn result_view<T>(result: Result<T, Error>) -> Result<T, ErrorView> {
    match result {
        Ok(value) => Ok(value),
        Err(error) => Err(error@),
    }
}

} // verus!
