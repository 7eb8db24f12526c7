//! Session establishment: version negotiation, authentication, attach.

use vstd::prelude::*;

use crate::error::{failure_error, result_view, Error, ErrorView};
use crate::message::{
    anonymous_user, next_tag, protocol_version, tag_after, Reply, ReplyView, Request,
    RequestKind, RequestView, Response, ResponseView, TaggedRequest, TaggedRequestView,
    AUTH_FID, FIRST_TAG, LAST_TAG, NO_FID, NO_TAG, PROPOSED_MSIZE, ROOT_FID,
};

verus! {

/// An established session: the negotiated message size, the root handle,
/// the next handle that is still free and the tag of the next request.
#[derive(Clone, Copy, Debug, PartialEq, Eq, Structural)]
pub struct Session {
    /// Maximum size of any message on this session.
    pub msize: u32,
    /// Handle bound to the root of the server's tree.
    pub root: u32,
    /// Smallest handle not yet given out. Every handle in use lies in
    /// `root..next_fid`.
    pub next_fid: u32,
    /// Tag the next request will carry. Tags are given out in increasing
    /// order, starting over only when the largest has been used, so a reply
    /// is told from the replies before it by its tag.
    pub next_tag: u16,
}

impl Session {
    /// Handles are given out in increasing order starting above the root, so
    /// no two live handles collide, and the next tag is not the reserved one.
    pub open spec fn wf(self) -> bool {
        &&& self.root < self.next_fid
        &&& FIRST_TAG <= self.next_tag <= LAST_TAG
    }

    /// Whether `fid` has been given out on this session.
    pub open spec fn in_use(self, fid: u32) -> bool {
        self.root <= fid < self.next_fid
    }

    /// The session as attach leaves it: only the root handle is in use, and
    /// the tags of the authentication and attach requests are spent.
    pub fn established(msize: u32) -> (session: Session)
        ensures
            session == spec_established(msize),
            session.wf(),
    {
        Session { msize, root: ROOT_FID, next_fid: ROOT_FID + 1, next_tag: ATTACH_TAG + 1 }
    }

    /// The session with the next tag spent.
    pub open spec fn tagged(self) -> Session {
        Session { next_tag: tag_after(self.next_tag), ..self }
    }

    /// Gives out the tag for the next request.
    pub fn take_tag(&mut self) -> (tag: u16)
        ensures
            tag == old(self).next_tag,
            *final(self) == old(self).tagged(),
            old(self).wf() ==> final(self).wf() && tag != NO_TAG,
            final(self).next_tag != tag,
    {
        let tag = self.next_tag;
        self.next_tag = next_tag(tag);
        tag
    }

    /// Gives out a handle that is not in use, or `None` when the handle
    /// space is exhausted.
    pub fn allocate(&mut self) -> (fid: Option<u32>)
        ensures
            old(self).wf() ==> final(self).wf(),
            final(self).msize == old(self).msize,
            final(self).root == old(self).root,
            final(self).next_tag == old(self).next_tag,
            old(self).next_fid == NO_FID <==> fid is None,
            fid is None ==> *final(self) == *old(self),
            fid matches Some(f) ==> {
                &&& f == old(self).next_fid
                &&& f != NO_FID
                &&& !old(self).in_use(f)
                &&& old(self).wf() ==> final(self).in_use(f)
                &&& final(self).next_fid == f + 1
            },
    {
        if self.next_fid == NO_FID {
            None
        } else {
            let fid = self.next_fid;
            self.next_fid = fid + 1;
            Some(fid)
        }
    }
}

/// Tag of the authentication request.
pub const AUTH_TAG: u16 = 1;

/// Tag of the attach request.
pub const ATTACH_TAG: u16 = 2;

/// The session as attach leaves it.
pub open spec fn spec_established(msize: u32) -> Session {
    Session {
        msize,
        root: ROOT_FID,
        next_fid: (ROOT_FID + 1) as u32,
        next_tag: (ATTACH_TAG + 1) as u16,
    }
}

/// The request that opens the handshake.
pub open spec fn spec_version_request() -> TaggedRequestView {
    TaggedRequestView {
        tag: NO_TAG,
        request: RequestView::Version { msize: PROPOSED_MSIZE, version: protocol_version() },
    }
}

/// The request for an authentication handle for the anonymous identity.
pub open spec fn spec_auth_request() -> TaggedRequestView {
    TaggedRequestView {
        tag: AUTH_TAG,
        request: RequestView::Auth {
            afid: AUTH_FID,
            uname: anonymous_user(),
            aname: Seq::empty(),
        },
    }
}

/// The request that binds the root handle, without authentication, to the
/// anonymous identity and the default tree.
pub open spec fn spec_attach_request() -> TaggedRequestView {
    TaggedRequestView {
        tag: ATTACH_TAG,
        request: RequestView::Attach {
            fid: ROOT_FID,
            afid: None,
            uname: anonymous_user(),
            aname: Seq::empty(),
        },
    }
}

/// What a reply to the version request decides: the negotiated message
/// size, the smaller of the two proposals, if the server speaks the
/// client's protocol version.
pub open spec fn negotiated(reply: ReplyView) -> Result<u32, ErrorView> {
    match reply {
        ReplyView::Message(ResponseView::Version { msize, version }) => {
            if version == protocol_version() {
                Ok(if msize < PROPOSED_MSIZE { msize } else { PROPOSED_MSIZE })
            } else {
                Err(ErrorView::VersionMismatch { offered: version })
            }
        },
        ReplyView::Message(ResponseView::Error { ename }) => Err(
            ErrorView::Rejected { request: RequestKind::Version, reason: ename },
        ),
        ReplyView::Message(_) => Err(ErrorView::UnexpectedResponse(RequestKind::Version)),
        ReplyView::Failed(failure) => Err(failure_error(failure)),
    }
}

/// What a reply to the authentication request decides. A server that
/// serves anonymous clients refuses the request, and that refusal is the
/// success; a granted handle would need a dialogue the client cannot hold.
pub open spec fn authenticated(reply: ReplyView) -> Result<(), ErrorView> {
    match reply {
        ReplyView::Message(ResponseView::Error { .. }) => Ok(()),
        ReplyView::Message(ResponseView::Auth) => Err(ErrorView::AuthenticationRequired),
        ReplyView::Message(_) => Err(ErrorView::UnexpectedResponse(RequestKind::Auth)),
        ReplyView::Failed(failure) => Err(failure_error(failure)),
    }
}

/// What a reply to the attach request decides: the root handle.
pub open spec fn attached(reply: ReplyView) -> Result<u32, ErrorView> {
    match reply {
        ReplyView::Message(ResponseView::Attach) => Ok(ROOT_FID),
        ReplyView::Message(ResponseView::Error { ename }) => Err(
            ErrorView::Rejected { request: RequestKind::Attach, reason: ename },
        ),
        ReplyView::Message(_) => Err(ErrorView::UnexpectedResponse(RequestKind::Attach)),
        ReplyView::Failed(failure) => Err(failure_error(failure)),
    }
}

/// Builds the request that opens the handshake.
pub fn version_request() -> (request: TaggedRequest)
    ensures
        request@ == spec_version_request(),
{
    TaggedRequest {
        tag: NO_TAG,
        request: Request::Version { msize: PROPOSED_MSIZE, version: "9P2000".to_owned() },
    }
}

/// Builds the authentication request.
pub fn auth_request() -> (request: TaggedRequest)
    ensures
        request@ == spec_auth_request(),
{
    TaggedRequest {
        tag: AUTH_TAG,
        request: Request::Auth {
            afid: AUTH_FID,
            uname: "nobody".to_owned(),
            aname: String::new(),
        },
    }
}

/// Builds the attach request.
pub fn attach_request() -> (request: TaggedRequest)
    ensures
        request@ == spec_attach_request(),
{
    TaggedRequest {
        tag: ATTACH_TAG,
        request: Request::Attach {
            fid: ROOT_FID,
            afid: None,
            uname: "nobody".to_owned(),
            aname: String::new(),
        },
    }
}

/// Decides the version negotiation from the reply to [`version_request`].
pub fn perform_version_negotiation(reply: Reply) -> (result: Result<u32, Error>)
    ensures
        result_view(result) == negotiated(reply@),
{
    match reply {
        Reply::Message(Response::Version { msize, version }) => {
            let expected = "9P2000".to_owned();
            if version == expected {
                Ok(if msize < PROPOSED_MSIZE { msize } else { PROPOSED_MSIZE })
            } else {
                Err(Error::VersionMismatch { offered: version })
            }
        },
        Reply::Message(Response::Error { ename }) => Err(
            Error::Rejected { request: RequestKind::Version, reason: ename },
        ),
        Reply::Message(_) => Err(Error::UnexpectedResponse(RequestKind::Version)),
        Reply::Failed(failure) => Err(Error::from_failure(failure)),
    }
}

/// Decides the authentication step from the reply to [`auth_request`].
pub fn perform_authentication(reply: Reply) -> (result: Result<(), Error>)
    ensures
        result_view(result) == authenticated(reply@),
{
    match reply {
        Reply::Message(Response::Error { .. }) => Ok(()),
        Reply::Message(Response::Auth) => Err(Error::AuthenticationRequired),
        Reply::Message(_) => Err(Error::UnexpectedResponse(RequestKind::Auth)),
        Reply::Failed(failure) => Err(Error::from_failure(failure)),
    }
}

/// Decides the attach step from the reply to [`attach_request`].
pub fn attach_to_filesystem(reply: Reply) -> (result: Result<u32, Error>)
    ensures
        result_view(result) == attached(reply@),
{
    match reply {
        Reply::Message(Response::Attach) => Ok(ROOT_FID),
        Reply::Message(Response::Error { ename }) => Err(
            Error::Rejected { request: RequestKind::Attach, reason: ename },
        ),
        Reply::Message(_) => Err(Error::UnexpectedResponse(RequestKind::Attach)),
        Reply::Failed(failure) => Err(Error::from_failure(failure)),
    }
}

/// Where a handshake stands: which reply it is waiting for.
#[derive(Clone, Copy, Debug, PartialEq, Eq, Structural)]
pub enum HandshakePhase {
    /// The version request is in flight.
    Version,
    /// The authentication request is in flight; `msize` is negotiated.
    Auth { msize: u32 },
    /// The attach request is in flight; `msize` is negotiated.
    Attach { msize: u32 },
    /// The handshake has produced its session or its error.
    Done,
}

/// What a handshake asks for next, or how it ended.
#[derive(Clone, Debug, PartialEq, Eq)]
pub enum HandshakeStep {
    /// Send this request and report the reply.
    Send(TaggedRequest),
    /// The session is established.
    Established(Session),
    /// The handshake failed; there is no session.
    Failed(Error),
}

/// The mathematical content of a [`HandshakeStep`].
pub enum HandshakeStepView {
    Send(TaggedRequestView),
    Established(Session),
    Failed(ErrorView),
}

impl View for HandshakeStep {
    type V = HandshakeStepView;

    open spec fn view(&self) -> HandshakeStepView {
        match *self {
            HandshakeStep::Send(request) => HandshakeStepView::Send(request@),
            HandshakeStep::Established(session) => HandshakeStepView::Established(session),
            HandshakeStep::Failed(error) => HandshakeStepView::Failed(error@),
        }
    }
}

/// The transition of the handshake: from the phase and the reply to the
/// outstanding request, the next phase and what to do. Each step is run
/// only if the one before succeeded, and any failure ends the handshake.
pub open spec fn handshake_step(phase: HandshakePhase, reply: ReplyView) -> (
    HandshakePhase,
    HandshakeStepView,
) {
    match phase {
        HandshakePhase::Version => match negotiated(reply) {
            Ok(msize) => (
                HandshakePhase::Auth { msize },
                HandshakeStepView::Send(spec_auth_request()),
            ),
            Err(error) => (HandshakePhase::Done, HandshakeStepView::Failed(error)),
        },
        HandshakePhase::Auth { msize } => match authenticated(reply) {
            Ok(_) => (
                HandshakePhase::Attach { msize },
                HandshakeStepView::Send(spec_attach_request()),
            ),
            Err(error) => (HandshakePhase::Done, HandshakeStepView::Failed(error)),
        },
        HandshakePhase::Attach { msize } => match attached(reply) {
            Ok(_) => (
                HandshakePhase::Done,
                HandshakeStepView::Established(spec_established(msize)),
            ),
            Err(error) => (HandshakePhase::Done, HandshakeStepView::Failed(error)),
        },
        HandshakePhase::Done => (
            HandshakePhase::Done,
            HandshakeStepView::Failed(ErrorView::UnexpectedEvent),
        ),
    }
}

/// A handshake in progress.
#[derive(Clone, Copy, Debug, PartialEq, Eq, Structural)]
pub struct Handshake {
    /// The reply the handshake is waiting for.
    pub phase: HandshakePhase,
}

impl Handshake {
    /// Starts a handshake on a fresh connection: the handshake and the
    /// request to send first.
    pub fn begin() -> (started: (Handshake, TaggedRequest))
        ensures
            started.0.phase == HandshakePhase::Version,
            started.1@ == spec_version_request(),
    {
        (Handshake { phase: HandshakePhase::Version }, version_request())
    }

    /// Advances the handshake by the reply to the request last sent.
    pub fn perform_handshake(&mut self, reply: Reply) -> (step: HandshakeStep)
        ensures
            (final(self).phase, step@) == handshake_step(old(self).phase, reply@),
            step matches HandshakeStep::Established(session) ==> session.wf(),
    {
        match self.phase {
            HandshakePhase::Version => match perform_version_negotiation(reply) {
                Ok(msize) => {
                    self.phase = HandshakePhase::Auth { msize };
                    HandshakeStep::Send(auth_request())
                },
                Err(error) => {
                    self.phase = HandshakePhase::Done;
                    HandshakeStep::Failed(error)
                },
            },
            HandshakePhase::Auth { msize } => match perform_authentication(reply) {
                Ok(_) => {
                    self.phase = HandshakePhase::Attach { msize };
                    HandshakeStep::Send(attach_request())
                },
                Err(error) => {
                    self.phase = HandshakePhase::Done;
                    HandshakeStep::Failed(error)
                },
            },
            HandshakePhase::Attach { msize } => match attach_to_filesystem(reply) {
                Ok(_) => {
                    self.phase = HandshakePhase::Done;
                    HandshakeStep::Established(Session::established(msize))
                },
                Err(error) => {
                    self.phase = HandshakePhase::Done;
                    HandshakeStep::Failed(error)
                },
            },
            HandshakePhase::Done => HandshakeStep::Failed(Error::UnexpectedEvent),
        }
    }
}

} // verus!
