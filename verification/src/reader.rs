//! Opening, chunked reading and releasing of a remote file.

use vstd::prelude::*;

use crate::error::{failure_error, Error, ErrorView};
use crate::message::{
    Failure, OpenMode, Reply, ReplyView, Request, RequestKind, RequestView, Response,
    ResponseView, TaggedRequest, TaggedRequestView,
};

verus! {

/// Bytes of every read reply that are taken up by framing rather than data.
pub const PROTOCOL_OVERHEAD: u32 = 100;

/// Read size used when the negotiated message size leaves no room for data.
pub const DEFAULT_READ_COUNT: u32 = 4096;

/// The largest byte count a single read request may ask for under `msize`.
pub open spec fn spec_max_read_count(msize: u32) -> u32 {
    if msize > PROTOCOL_OVERHEAD {
        (msize - PROTOCOL_OVERHEAD) as u32
    } else {
        DEFAULT_READ_COUNT
    }
}

/// Computes the per-request byte count for a session that negotiated `msize`.
pub fn max_read_count(msize: u32) -> (count: u32)
    ensures
        count == spec_max_read_count(msize),
        count > 0,
        msize <= PROTOCOL_OVERHEAD ==> count == DEFAULT_READ_COUNT,
        msize > PROTOCOL_OVERHEAD ==> count + PROTOCOL_OVERHEAD == msize,
{
    if msize > PROTOCOL_OVERHEAD {
        msize - PROTOCOL_OVERHEAD
    } else {
        DEFAULT_READ_COUNT
    }
}

/// The request that opens `fid` for reading.
pub open spec fn spec_open_request(tag: u16, fid: u32) -> TaggedRequestView {
    TaggedRequestView { tag, request: RequestView::Open { fid, mode: OpenMode::Read } }
}

/// The request that reads up to `count` bytes of `fid` at `offset`.
pub open spec fn spec_read_request(
    tag: u16,
    fid: u32,
    offset: u64,
    count: u32,
) -> TaggedRequestView {
    TaggedRequestView { tag, request: RequestView::Read { fid, offset, count } }
}

/// The request that releases `fid`.
pub open spec fn spec_clunk_request(tag: u16, fid: u32) -> TaggedRequestView {
    TaggedRequestView { tag, request: RequestView::Clunk { fid } }
}

/// Builds the request that opens `fid` for reading.
pub fn open_request(tag: u16, fid: u32) -> (request: TaggedRequest)
    ensures
        request@ == spec_open_request(tag, fid),
{
    TaggedRequest { tag, request: Request::Open { fid, mode: OpenMode::Read } }
}

/// Builds the request that reads up to `count` bytes of `fid` at `offset`.
pub fn read_request(tag: u16, fid: u32, offset: u64, count: u32) -> (request: TaggedRequest)
    ensures
        request@ == spec_read_request(tag, fid, offset, count),
{
    TaggedRequest { tag, request: Request::Read { fid, offset, count } }
}

/// Builds the request that releases `fid`.
pub fn clunk_request(tag: u16, fid: u32) -> (request: TaggedRequest)
    ensures
        request@ == spec_clunk_request(tag, fid),
{
    TaggedRequest { tag, request: Request::Clunk { fid } }
}

/// What a reply to an open request decides.
#[derive(Clone, Debug, PartialEq, Eq)]
pub enum OpenOutcome {
    /// The handle is open on a file and can be read.
    File,
    /// The handle is open, but on a directory.
    Directory,
    /// The handle is not open.
    Failed(Error),
}

/// The mathematical content of an [`OpenOutcome`].
pub enum OpenOutcomeView {
    File,
    Directory,
    Failed(ErrorView),
}

impl View for OpenOutcome {
    type V = OpenOutcomeView;

    open spec fn view(&self) -> OpenOutcomeView {
        match *self {
            OpenOutcome::File => OpenOutcomeView::File,
            OpenOutcome::Directory => OpenOutcomeView::Directory,
            OpenOutcome::Failed(error) => OpenOutcomeView::Failed(error@),
        }
    }
}

/// What a reply to an open request decides.
pub open spec fn opened(reply: ReplyView) -> OpenOutcomeView {
    match reply {
        ReplyView::Message(ResponseView::Open { directory }) => if directory {
            OpenOutcomeView::Directory
        } else {
            OpenOutcomeView::File
        },
        ReplyView::Message(ResponseView::Error { ename }) => OpenOutcomeView::Failed(
            ErrorView::Rejected { request: RequestKind::Open, reason: ename },
        ),
        ReplyView::Message(_) => OpenOutcomeView::Failed(
            ErrorView::UnexpectedResponse(RequestKind::Open),
        ),
        ReplyView::Failed(failure) => OpenOutcomeView::Failed(failure_error(failure)),
    }
}

/// Decides an open from the server's reply.
pub fn open_file(reply: Reply) -> (outcome: OpenOutcome)
    ensures
        outcome@ == opened(reply@),
{
    match reply {
        Reply::Message(Response::Open { directory }) => if directory {
            OpenOutcome::Directory
        } else {
            OpenOutcome::File
        },
        Reply::Message(Response::Error { ename }) => OpenOutcome::Failed(
            Error::Rejected { request: RequestKind::Open, reason: ename },
        ),
        Reply::Message(_) => OpenOutcome::Failed(Error::UnexpectedResponse(RequestKind::Open)),
        Reply::Failed(failure) => OpenOutcome::Failed(Error::from_failure(failure)),
    }
}

/// What a reply to a read request decides.
#[derive(Clone, Debug, PartialEq, Eq)]
pub enum ReadOutcome {
    /// The server returned `data`; the next read starts at `next_offset`.
    Data { data: Vec<u8>, next_offset: u64 },
    /// The server returned no bytes: the file has been read to its end.
    EndOfFile,
    /// The read failed.
    Failed(Error),
}

/// The mathematical content of a [`ReadOutcome`].
pub enum ReadOutcomeView {
    Data { data: Seq<u8>, next_offset: u64 },
    EndOfFile,
    Failed(ErrorView),
}

impl View for ReadOutcome {
    type V = ReadOutcomeView;

    open spec fn view(&self) -> ReadOutcomeView {
        match *self {
            ReadOutcome::Data { data, next_offset } => ReadOutcomeView::Data {
                data: data@,
                next_offset,
            },
            ReadOutcome::EndOfFile => ReadOutcomeView::EndOfFile,
            ReadOutcome::Failed(error) => ReadOutcomeView::Failed(error@),
        }
    }
}

/// What a reply to a read at `offset` decides. The offset advances by the
/// number of bytes the server returned, which may be fewer than were asked
/// for; an empty reply is the end of the file.
pub open spec fn spec_read(reply: ReplyView, offset: u64) -> ReadOutcomeView {
    match reply {
        ReplyView::Message(ResponseView::Read { data }) => if data.len() == 0 {
            ReadOutcomeView::EndOfFile
        } else if offset + data.len() > u64::MAX {
            ReadOutcomeView::Failed(ErrorView::OffsetOverflow)
        } else {
            ReadOutcomeView::Data { data, next_offset: (offset + data.len()) as u64 }
        },
        ReplyView::Message(ResponseView::Error { ename }) => ReadOutcomeView::Failed(
            ErrorView::Rejected { request: RequestKind::Read, reason: ename },
        ),
        ReplyView::Message(_) => ReadOutcomeView::Failed(
            ErrorView::UnexpectedResponse(RequestKind::Read),
        ),
        ReplyView::Failed(failure) => ReadOutcomeView::Failed(failure_error(failure)),
    }
}

/// Decides one round of the read loop from the reply to a read at `offset`.
pub fn read_file(reply: Reply, offset: u64) -> (outcome: ReadOutcome)
    ensures
        outcome@ == spec_read(reply@, offset),
{
    match reply {
        Reply::Message(Response::Read { data }) => {
            let len = data.len();
            if len == 0 {
                ReadOutcome::EndOfFile
            } else if len as u64 > u64::MAX - offset {
                ReadOutcome::Failed(Error::OffsetOverflow)
            } else {
                ReadOutcome::Data { data, next_offset: offset + len as u64 }
            }
        },
        Reply::Message(Response::Error { ename }) => ReadOutcome::Failed(
            Error::Rejected { request: RequestKind::Read, reason: ename },
        ),
        Reply::Message(_) => ReadOutcome::Failed(Error::UnexpectedResponse(RequestKind::Read)),
        Reply::Failed(failure) => ReadOutcome::Failed(Error::from_failure(failure)),
    }
}

/// Why a handle may still be held by the server after its release was
/// attempted. A release that goes wrong is worth a warning and no more: it
/// never changes the result of the read before it.
#[derive(Clone, Debug, PartialEq, Eq)]
pub enum ReleaseWarning {
    /// The server refused the release, for the reason it gave.
    Refused { reason: String },
    /// The server answered the release with a message of the wrong kind.
    UnexpectedResponse,
    /// The release could not be exchanged.
    Failed(Failure),
}

/// The mathematical content of a [`ReleaseWarning`].
pub enum ReleaseWarningView {
    Refused { reason: Seq<char> },
    UnexpectedResponse,
    Failed(Failure),
}

impl View for ReleaseWarning {
    type V = ReleaseWarningView;

    open spec fn view(&self) -> ReleaseWarningView {
        match *self {
            ReleaseWarning::Refused { reason } => ReleaseWarningView::Refused { reason: reason@ },
            ReleaseWarning::UnexpectedResponse => ReleaseWarningView::UnexpectedResponse,
            ReleaseWarning::Failed(failure) => ReleaseWarningView::Failed(failure),
        }
    }
}

/// The view of an optional warning.
pub open spec fn warning_view(warning: Option<ReleaseWarning>) -> Option<ReleaseWarningView> {
    match warning {
        Some(w) => Some(w@),
        None => None,
    }
}

/// What a reply to a release decides: nothing, or a warning.
pub open spec fn released(reply: ReplyView) -> Option<ReleaseWarningView> {
    match reply {
        ReplyView::Message(ResponseView::Clunk) => None,
        ReplyView::Message(ResponseView::Error { ename }) => Some(
            ReleaseWarningView::Refused { reason: ename },
        ),
        ReplyView::Message(_) => Some(ReleaseWarningView::UnexpectedResponse),
        ReplyView::Failed(failure) => Some(ReleaseWarningView::Failed(failure)),
    }
}

/// Decides a release from the reply to the clunk request.
pub fn cleanup_fid(reply: Reply) -> (warning: Option<ReleaseWarning>)
    ensures
        warning_view(warning) == released(reply@),
{
    match reply {
        Reply::Message(Response::Clunk) => None,
        Reply::Message(Response::Error { ename }) => Some(
            ReleaseWarning::Refused { reason: ename },
        ),
        Reply::Message(_) => Some(ReleaseWarning::UnexpectedResponse),
        Reply::Failed(failure) => Some(ReleaseWarning::Failed(failure)),
    }
}

} // verus!
