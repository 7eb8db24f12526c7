//! The protocol messages the driver sends and understands.
//!
//! Only the read path is modelled: version negotiation, authentication,
//! attach, walk, open, read and clunk, plus the universal error reply.

use vstd::prelude::*;

use crate::path::names_view;

verus! {

/// Tag reserved for the version exchange, before a session exists.
pub const NO_TAG: u16 = 0xFFFF;

/// Tag of the first request after the version exchange.
pub const FIRST_TAG: u16 = 1;

/// Largest tag a request may carry; the tag after it is [`FIRST_TAG`] again.
pub const LAST_TAG: u16 = 0xFFFE;

/// Largest message size the client offers to the server.
pub const PROPOSED_MSIZE: u32 = 8192;

/// Handle the client proposes for authentication.
pub const AUTH_FID: u32 = 1;

/// Handle bound to the root of the server's tree by attach.
pub const ROOT_FID: u32 = 2;

/// Handle value that names no handle; it is never allocated.
pub const NO_FID: u32 = 0xFFFF_FFFF;

/// The protocol identifier the client speaks.
pub open spec fn protocol_version() -> Seq<char> {
    "9P2000"@
}

/// The tag that follows `tag`: the next larger one, and the first one again
/// once the largest has been used. It is never the reserved tag.
pub open spec fn tag_after(tag: u16) -> u16 {
    if tag < LAST_TAG {
        (tag + 1) as u16
    } else {
        FIRST_TAG
    }
}

/// Computes the tag that follows `tag`.
pub fn next_tag(tag: u16) -> (next: u16)
    ensures
        next == tag_after(tag),
        next != NO_TAG,
        next != tag,
        tag < LAST_TAG ==> next > tag,
{
    if tag < LAST_TAG {
        tag + 1
    } else {
        FIRST_TAG
    }
}

/// The identity used for authentication and attach.
pub open spec fn anonymous_user() -> Seq<char> {
    "nobody"@
}

/// Access requested when opening a file.
#[derive(Clone, Copy, Debug, PartialEq, Eq, Structural)]
pub enum OpenMode {
    /// Read-only access.
    Read,
}

/// The kind of a request, used to say which exchange went wrong.
#[derive(Clone, Copy, Debug, PartialEq, Eq, Structural)]
pub enum RequestKind {
    Version,
    Auth,
    Attach,
    Walk,
    Open,
    Read,
    Clunk,
}

/// A request to the file server.
#[derive(Clone, Debug, PartialEq, Eq)]
#[allow(inconsistent_fields)]
pub enum Request {
    /// Proposes a protocol version and a maximum message size.
    Version { msize: u32, version: String },
    /// Asks for an authentication handle for `uname` on tree `aname`.
    Auth { afid: u32, uname: String, aname: String },
    /// Binds `fid` to the root of tree `aname` for `uname`; `afid` is the
    /// authentication handle, if one was obtained.
    Attach { fid: u32, afid: Option<u32>, uname: String, aname: String },
    /// Walks from `fid` along `wnames` and binds the result to `newfid`.
    Walk { fid: u32, newfid: u32, wnames: Vec<String> },
    /// Opens `fid`.
    Open { fid: u32, mode: OpenMode },
    /// Reads up to `count` bytes of `fid` starting at `offset`.
    Read { fid: u32, offset: u64, count: u32 },
    /// Releases `fid`.
    Clunk { fid: u32 },
}

/// The mathematical content of a [`Request`].
#[allow(inconsistent_fields)]
pub enum RequestView {
    Version { msize: u32, version: Seq<char> },
    Auth { afid: u32, uname: Seq<char>, aname: Seq<char> },
    Attach { fid: u32, afid: Option<u32>, uname: Seq<char>, aname: Seq<char> },
    Walk { fid: u32, newfid: u32, wnames: Seq<Seq<char>> },
    Open { fid: u32, mode: OpenMode },
    Read { fid: u32, offset: u64, count: u32 },
    Clunk { fid: u32 },
}

impl View for Request {
    type V = RequestView;

    open spec fn view(&self) -> RequestView {
        match *self {
            Request::Version { msize, version } => RequestView::Version {
                msize,
                version: version@,
            },
            Request::Auth { afid, uname, aname } => RequestView::Auth {
                afid,
                uname: uname@,
                aname: aname@,
            },
            Request::Attach { fid, afid, uname, aname } => RequestView::Attach {
                fid,
                afid,
                uname: uname@,
                aname: aname@,
            },
            Request::Walk { fid, newfid, wnames } => RequestView::Walk {
                fid,
                newfid,
                wnames: names_view(wnames@),
            },
            Request::Open { fid, mode } => RequestView::Open { fid, mode },
            Request::Read { fid, offset, count } => RequestView::Read { fid, offset, count },
            Request::Clunk { fid } => RequestView::Clunk { fid },
        }
    }
}

impl RequestView {
    /// The kind of this request.
    pub open spec fn kind(self) -> RequestKind {
        match self {
            RequestView::Version { .. } => RequestKind::Version,
            RequestView::Auth { .. } => RequestKind::Auth,
            RequestView::Attach { .. } => RequestKind::Attach,
            RequestView::Walk { .. } => RequestKind::Walk,
            RequestView::Open { .. } => RequestKind::Open,
            RequestView::Read { .. } => RequestKind::Read,
            RequestView::Clunk { .. } => RequestKind::Clunk,
        }
    }
}

/// A request together with the tag that pairs it with its reply.
#[derive(Clone, Debug, PartialEq, Eq)]
pub struct TaggedRequest {
    pub tag: u16,
    pub request: Request,
}

/// The mathematical content of a [`TaggedRequest`].
pub struct TaggedRequestView {
    pub tag: u16,
    pub request: RequestView,
}

impl View for TaggedRequest {
    type V = TaggedRequestView;

    open spec fn view(&self) -> TaggedRequestView {
        TaggedRequestView { tag: self.tag, request: self.request@ }
    }
}

/// A reply from the file server, reduced to what the driver reads.
#[derive(Clone, Debug, PartialEq, Eq)]
pub enum Response {
    /// The server's protocol version and maximum message size.
    Version { msize: u32, version: String },
    /// An authentication handle was granted.
    Auth,
    /// The root handle is bound.
    Attach,
    /// The walk resolved `resolved` leading components.
    Walk { resolved: usize },
    /// The handle is open; `directory` tells whether it names a directory.
    Open { directory: bool },
    /// The bytes read; empty at end of file.
    Read { data: Vec<u8> },
    /// The handle is released.
    Clunk,
    /// The request failed for the reason given.
    Error { ename: String },
    /// Any other message.
    Other,
}

/// The mathematical content of a [`Response`].
pub enum ResponseView {
    Version { msize: u32, version: Seq<char> },
    Auth,
    Attach,
    Walk { resolved: usize },
    Open { directory: bool },
    Read { data: Seq<u8> },
    Clunk,
    Error { ename: Seq<char> },
    Other,
}

impl View for Response {
    type V = ResponseView;

    open spec fn view(&self) -> ResponseView {
        match *self {
            Response::Version { msize, version } => ResponseView::Version {
                msize,
                version: version@,
            },
            Response::Auth => ResponseView::Auth,
            Response::Attach => ResponseView::Attach,
            Response::Walk { resolved } => ResponseView::Walk { resolved },
            Response::Open { directory } => ResponseView::Open { directory },
            Response::Read { data } => ResponseView::Read { data: data@ },
            Response::Clunk => ResponseView::Clunk,
            Response::Error { ename } => ResponseView::Error { ename: ename@ },
            Response::Other => ResponseView::Other,
        }
    }
}

/// Why the driver could not carry out what it was asked to do.
#[derive(Clone, Copy, Debug, PartialEq, Eq, Structural)]
pub enum Failure {
    /// Connecting, sending or receiving failed.
    Io,
    /// A message arrived that could not be decoded.
    Decode,
    /// The peer closed the connection.
    Closed,
    /// The firmware service of the platform reported an error.
    Platform,
    /// The sink refused the bytes handed to it.
    Write,
    /// The driver reported something that does not answer what it was asked.
    Unexpected,
}

/// What the driver reports back from an exchange with the server.
#[derive(Clone, Debug, PartialEq, Eq)]
pub enum Reply {
    /// The server's reply arrived.
    Message(Response),
    /// The exchange, or the delivery that was to precede it, failed.
    Failed(Failure),
}

/// The mathematical content of a [`Reply`].
pub enum ReplyView {
    Message(ResponseView),
    Failed(Failure),
}

impl View for Reply {
    type V = ReplyView;

    open spec fn view(&self) -> ReplyView {
        match *self {
            Reply::Message(response) => ReplyView::Message(response@),
            Reply::Failed(failure) => ReplyView::Failed(failure),
        }
    }
}

} // verus!
