//! Resolving a path to a fresh handle.

use vstd::prelude::*;

use crate::error::{failure_error, result_view, Error, ErrorView};
use crate::handshake::Session;
use crate::message::{
    Reply, ReplyView, Request, RequestKind, RequestView, Response, ResponseView, TaggedRequest,
    TaggedRequestView,
};
use crate::path::{names_view, parse_path_components, split_path};

verus! {

/// How a walk begins.
#[derive(Clone, Debug, PartialEq, Eq)]
pub enum WalkPlan {
    /// The path has no components: it names the handle walked from, and the
    /// walk has succeeded without a word to the server.
    AtRoot,
    /// Send this request; the walk succeeds if the server resolves
    /// `requested` components.
    Ask { request: TaggedRequest, requested: usize },
}

/// The mathematical content of a [`WalkPlan`].
pub enum WalkPlanView {
    AtRoot,
    Ask { request: TaggedRequestView, requested: usize },
}

impl View for WalkPlan {
    type V = WalkPlanView;

    open spec fn view(&self) -> WalkPlanView {
        match *self {
            WalkPlan::AtRoot => WalkPlanView::AtRoot,
            WalkPlan::Ask { request, requested } => WalkPlanView::Ask {
                request: request@,
                requested,
            },
        }
    }
}

/// The request that walks from `fid` along `wnames` to `newfid`.
pub open spec fn spec_walk_request(
    tag: u16,
    fid: u32,
    newfid: u32,
    wnames: Seq<Seq<char>>,
) -> TaggedRequestView {
    TaggedRequestView { tag, request: RequestView::Walk { fid, newfid, wnames } }
}

/// How the walk from `fid` along `path` to `newfid` begins: a single
/// request, tagged `tag`, carries all components of the path, and a path
/// without components needs none.
pub open spec fn spec_plan_walk(tag: u16, fid: u32, newfid: u32, path: Seq<char>) -> WalkPlanView {
    let wnames = split_path(path);
    if wnames.len() == 0 {
        WalkPlanView::AtRoot
    } else {
        WalkPlanView::Ask {
            request: spec_walk_request(tag, fid, newfid, wnames),
            requested: wnames.len() as usize,
        }
    }
}

/// What a reply to a walk of `requested` components decides: whether the
/// path was found. A walk that resolves fewer components than were asked
/// for, or that the server refuses, has not found it.
pub open spec fn walked(reply: ReplyView, requested: usize) -> Result<bool, ErrorView> {
    match reply {
        ReplyView::Message(ResponseView::Walk { resolved }) => Ok(resolved == requested),
        ReplyView::Message(ResponseView::Error { .. }) => Ok(false),
        ReplyView::Message(_) => Err(ErrorView::UnexpectedResponse(RequestKind::Walk)),
        ReplyView::Failed(failure) => Err(failure_error(failure)),
    }
}

/// Builds the walk request for components already split.
pub fn walk_request(tag: u16, fid: u32, newfid: u32, wnames: Vec<String>) -> (request:
    TaggedRequest)
    ensures
        request@ == spec_walk_request(tag, fid, newfid, names_view(wnames@)),
{
    TaggedRequest { tag, request: Request::Walk { fid, newfid, wnames } }
}

/// Plans the walk from `fid` along `path` to `newfid`. The request, if one
/// is needed, takes its tag from the session; a walk that needs none leaves
/// the session as it is.
pub fn plan_walk(session: &mut Session, fid: u32, newfid: u32, path: &str) -> (plan: WalkPlan)
    ensures
        plan@ == spec_plan_walk(old(session).next_tag, fid, newfid, path@),
        plan is AtRoot ==> *final(session) == *old(session),
        plan is Ask ==> *final(session) == old(session).tagged(),
        old(session).wf() ==> final(session).wf(),
{
    let wnames = parse_path_components(path);
    let requested = wnames.len();
    if requested == 0 {
        WalkPlan::AtRoot
    } else {
        let tag = session.take_tag();
        WalkPlan::Ask { request: walk_request(tag, fid, newfid, wnames), requested }
    }
}

/// Decides a walk of `requested` components from the server's reply.
pub fn walk_to_path(reply: Reply, requested: usize) -> (found: Result<bool, Error>)
    ensures
        result_view(found) == walked(reply@, requested),
{
    match reply {
        Reply::Message(Response::Walk { resolved }) => Ok(resolved == requested),
        Reply::Message(Response::Error { .. }) => Ok(false),
        Reply::Message(_) => Err(Error::UnexpectedResponse(RequestKind::Walk)),
        Reply::Failed(failure) => Err(Error::from_failure(failure)),
    }
}

/// A path that is empty or made of separators alone is resolved at the
/// handle walked from, with no request to the server.
pub proof fn lemma_root_path_needs_no_request(tag: u16, fid: u32, newfid: u32, path: Seq<char>)
    ensures
        crate::path::only_separators(path) <==> spec_plan_walk(tag, fid, newfid, path)
            is AtRoot,
{
    crate::path::lemma_split_empty_iff_root(path);
}

} // verus!
