//! Fetching one remote file: walk to it, open it, read it to its end into
//! the caller's sink, release it.

use vstd::prelude::*;

use crate::error::{result_view, Error, ErrorView};
use crate::handshake::Session;
use crate::message::{
    Reply, ReplyView, RequestView, ResponseView, TaggedRequest, TaggedRequestView, NO_FID, NO_TAG,
};
use crate::path::{parse_path_components, split_path};
use crate::reader::{
    cleanup_fid, clunk_request, max_read_count, open_file, open_request, opened, read_file,
    read_request, released, spec_clunk_request, spec_max_read_count, spec_open_request,
    spec_read, spec_read_request, warning_view, OpenOutcome, OpenOutcomeView, ReadOutcome,
    ReadOutcomeView, ReleaseWarning, ReleaseWarningView,
};
use crate::walk::{spec_walk_request, walk_request, walk_to_path, walked};

verus! {

/// A fetch in progress: which reply it is waiting for, and what it must
/// remember until then. The fetch holds the session while it runs, and
/// every request it sends takes the session's next tag.
#[derive(Debug, PartialEq, Eq)]
pub enum Fetch {
    /// The walk to `fid` is in flight; it asked for `requested` components.
    Walking { session: Session, fid: u32, count: u32, requested: usize },
    /// The open of `fid` is in flight.
    Opening { session: Session, fid: u32, count: u32 },
    /// A read of `fid` at `offset` is in flight. Every byte before `offset`
    /// has been handed to the sink.
    Reading { session: Session, fid: u32, count: u32, offset: u64 },
    /// The release of `fid` is in flight; `result` is how the fetch ends.
    Releasing { session: Session, fid: u32, result: Result<(), Error> },
    /// The fetch has ended and left the session as given.
    Finished { session: Session },
}

/// The mathematical content of a [`Fetch`].
pub enum FetchView {
    Walking { session: Session, fid: u32, count: u32, requested: usize },
    Opening { session: Session, fid: u32, count: u32 },
    Reading { session: Session, fid: u32, count: u32, offset: u64 },
    Releasing { session: Session, fid: u32, result: Result<(), ErrorView> },
    Finished { session: Session },
}

impl View for Fetch {
    type V = FetchView;

    open spec fn view(&self) -> FetchView {
        match *self {
            Fetch::Walking { session, fid, count, requested } => FetchView::Walking {
                session,
                fid,
                count,
                requested,
            },
            Fetch::Opening { session, fid, count } => FetchView::Opening { session, fid, count },
            Fetch::Reading { session, fid, count, offset } => FetchView::Reading {
                session,
                fid,
                count,
                offset,
            },
            Fetch::Releasing { session, fid, result } => FetchView::Releasing {
                session,
                fid,
                result: result_view(result),
            },
            Fetch::Finished { session } => FetchView::Finished { session },
        }
    }
}

impl FetchView {
    /// The session as the fetch holds it.
    pub open spec fn session(self) -> Session {
        match self {
            FetchView::Walking { session, .. } => session,
            FetchView::Opening { session, .. } => session,
            FetchView::Reading { session, .. } => session,
            FetchView::Releasing { session, .. } => session,
            FetchView::Finished { session } => session,
        }
    }
}

impl Fetch {
    /// The session as the fetch holds it. When the fetch has finished this
    /// is the session to go on with.
    pub fn session(&self) -> (session: Session)
        ensures
            session == self@.session(),
    {
        match self {
            Fetch::Walking { session, .. } => *session,
            Fetch::Opening { session, .. } => *session,
            Fetch::Reading { session, .. } => *session,
            Fetch::Releasing { session, .. } => *session,
            Fetch::Finished { session } => *session,
        }
    }
}

/// What a fetch asks for next, or how it ended.
#[derive(Debug, PartialEq, Eq)]
pub enum FetchStep {
    /// Send this request and report the reply.
    Send(TaggedRequest),
    /// Hand `data` to the sink; if the sink takes it, send `then` and report
    /// the reply, and if not, report the failure.
    Deliver { data: Vec<u8>, then: TaggedRequest },
    /// The fetch has ended with `result`. `warning` tells if the release of
    /// the file's handle went wrong.
    Finished { result: Result<(), Error>, warning: Option<ReleaseWarning> },
}

/// The mathematical content of a [`FetchStep`].
pub enum FetchStepView {
    Send(TaggedRequestView),
    Deliver { data: Seq<u8>, then: TaggedRequestView },
    Finished { result: Result<(), ErrorView>, warning: Option<ReleaseWarningView> },
}

impl View for FetchStep {
    type V = FetchStepView;

    open spec fn view(&self) -> FetchStepView {
        match *self {
            FetchStep::Send(request) => FetchStepView::Send(request@),
            FetchStep::Deliver { data, then } => FetchStepView::Deliver {
                data: data@,
                then: then@,
            },
            FetchStep::Finished { result, warning } => FetchStepView::Finished {
                result: result_view(result),
                warning: warning_view(warning),
            },
        }
    }
}

/// A fetch that ends at once with `error`.
pub open spec fn refused(session: Session, error: ErrorView) -> (FetchView, FetchStepView) {
    (
        FetchView::Finished { session },
        FetchStepView::Finished { result: Err(error), warning: None },
    )
}

/// A fetch that releases `fid` and then ends with `result`.
pub open spec fn release_then(session: Session, fid: u32, result: Result<(), ErrorView>) -> (
    FetchView,
    FetchStepView,
) {
    (
        FetchView::Releasing { session: session.tagged(), fid, result },
        FetchStepView::Send(spec_clunk_request(session.next_tag, fid)),
    )
}

/// How the fetch of `path` on `session` begins.
///
/// The root cannot be read as a file, so a path without components is
/// refused before anything is sent. Otherwise a handle is allocated and the
/// walk from the root to it is sent.
pub open spec fn fetch_begin(session: Session, path: Seq<char>) -> (FetchView, FetchStepView) {
    let wnames = split_path(path);
    if wnames.len() == 0 {
        refused(session, ErrorView::IsDirectory)
    } else if session.next_fid == NO_FID {
        refused(session, ErrorView::NoFreeHandle)
    } else {
        let fid = session.next_fid;
        (
            FetchView::Walking {
                session: Session { next_fid: (fid + 1) as u32, ..session }.tagged(),
                fid,
                count: spec_max_read_count(session.msize),
                requested: wnames.len() as usize,
            },
            FetchStepView::Send(spec_walk_request(session.next_tag, session.root, fid, wnames)),
        )
    }
}

/// The transition of a fetch: from its state and the reply to what it last
/// asked for, the next state and what to do.
pub open spec fn fetch_step(fetch: FetchView, reply: ReplyView) -> (FetchView, FetchStepView) {
    match fetch {
        FetchView::Walking { session, fid, count, requested } => match walked(reply, requested) {
            Ok(true) => (
                FetchView::Opening { session: session.tagged(), fid, count },
                FetchStepView::Send(spec_open_request(session.next_tag, fid)),
            ),
            Ok(false) => refused(session, ErrorView::FileNotFound),
            Err(error) => refused(session, error),
        },
        FetchView::Opening { session, fid, count } => match opened(reply) {
            OpenOutcomeView::File => (
                FetchView::Reading { session: session.tagged(), fid, count, offset: 0 },
                FetchStepView::Send(spec_read_request(session.next_tag, fid, 0, count)),
            ),
            OpenOutcomeView::Directory => release_then(session, fid, Err(ErrorView::IsDirectory)),
            OpenOutcomeView::Failed(error) => refused(session, error),
        },
        FetchView::Reading { session, fid, count, offset } => match spec_read(reply, offset) {
            ReadOutcomeView::Data { data, next_offset } => (
                FetchView::Reading { session: session.tagged(), fid, count, offset: next_offset },
                FetchStepView::Deliver {
                    data,
                    then: spec_read_request(session.next_tag, fid, next_offset, count),
                },
            ),
            ReadOutcomeView::EndOfFile => release_then(session, fid, Ok(())),
            ReadOutcomeView::Failed(error) => release_then(session, fid, Err(error)),
        },
        FetchView::Releasing { session, fid, result } => (
            FetchView::Finished { session },
            FetchStepView::Finished { result, warning: released(reply) },
        ),
        FetchView::Finished { session } => refused(session, ErrorView::UnexpectedEvent),
    }
}

impl Fetch {
    /// Begins the fetch of `path` on `session`: the fetch and what it asks
    /// for first.
    pub fn begin(session: Session, path: &str) -> (started: (Fetch, FetchStep))
        ensures
            (started.0@, started.1@) == fetch_begin(session, path@),
            session.wf() ==> started.0@.session().wf(),
    {
        let mut session = session;
        let wnames = parse_path_components(path);
        let requested = wnames.len();
        if requested == 0 {
            return (
                Fetch::Finished { session },
                FetchStep::Finished { result: Err(Error::IsDirectory), warning: None },
            );
        }
        let root = session.root;
        let count = max_read_count(session.msize);
        match session.allocate() {
            None => (
                Fetch::Finished { session },
                FetchStep::Finished { result: Err(Error::NoFreeHandle), warning: None },
            ),
            Some(fid) => {
                let tag = session.take_tag();
                (
                    Fetch::Walking { session, fid, count, requested },
                    FetchStep::Send(walk_request(tag, root, fid, wnames)),
                )
            },
        }
    }

    /// Advances the fetch by the reply to what it last asked for.
    pub fn cat_file(&mut self, reply: Reply) -> (step: FetchStep)
        ensures
            (final(self)@, step@) == fetch_step(old(self)@, reply@),
            old(self)@.session().wf() ==> final(self)@.session().wf(),
    {
        let mut current = Fetch::Finished { session: self.session() };
        core::mem::swap(self, &mut current);
        let (next, step) = match current {
            Fetch::Walking { session, fid, count, requested } => {
                let mut session = session;
                match walk_to_path(reply, requested) {
                    Ok(true) => {
                        let tag = session.take_tag();
                        (
                            Fetch::Opening { session, fid, count },
                            FetchStep::Send(open_request(tag, fid)),
                        )
                    },
                    Ok(false) => (
                        Fetch::Finished { session },
                        FetchStep::Finished { result: Err(Error::FileNotFound), warning: None },
                    ),
                    Err(error) => (
                        Fetch::Finished { session },
                        FetchStep::Finished { result: Err(error), warning: None },
                    ),
                }
            },
            Fetch::Opening { session, fid, count } => {
                let mut session = session;
                match open_file(reply) {
                    OpenOutcome::File => {
                        let tag = session.take_tag();
                        (
                            Fetch::Reading { session, fid, count, offset: 0 },
                            FetchStep::Send(read_request(tag, fid, 0, count)),
                        )
                    },
                    OpenOutcome::Directory => {
                        let tag = session.take_tag();
                        (
                            Fetch::Releasing { session, fid, result: Err(Error::IsDirectory) },
                            FetchStep::Send(clunk_request(tag, fid)),
                        )
                    },
                    OpenOutcome::Failed(error) => (
                        Fetch::Finished { session },
                        FetchStep::Finished { result: Err(error), warning: None },
                    ),
                }
            },
            Fetch::Reading { session, fid, count, offset } => {
                let mut session = session;
                let tag = session.take_tag();
                match read_file(reply, offset) {
                    ReadOutcome::Data { data, next_offset } => (
                        Fetch::Reading { session, fid, count, offset: next_offset },
                        FetchStep::Deliver {
                            data,
                            then: read_request(tag, fid, next_offset, count),
                        },
                    ),
                    ReadOutcome::EndOfFile => (
                        Fetch::Releasing { session, fid, result: Ok(()) },
                        FetchStep::Send(clunk_request(tag, fid)),
                    ),
                    ReadOutcome::Failed(error) => (
                        Fetch::Releasing { session, fid, result: Err(error) },
                        FetchStep::Send(clunk_request(tag, fid)),
                    ),
                }
            },
            Fetch::Releasing { session, fid, result } => (
                Fetch::Finished { session },
                FetchStep::Finished { result, warning: cleanup_fid(reply) },
            ),
            Fetch::Finished { session } => (
                Fetch::Finished { session },
                FetchStep::Finished { result: Err(Error::UnexpectedEvent), warning: None },
            ),
        };
        *self = next;
        step
    }
}

/// The handle a fetch walks to is fresh: it was not in use on the session
/// before, it is neither the root nor the reserved handle, and the session
/// counts it as in use from then on.
pub proof fn lemma_fetch_takes_a_fresh_handle(session: Session, path: Seq<char>)
    requires
        session.wf(),
    ensures
        fetch_begin(session, path).0 matches FetchView::Walking { session: held, fid, .. } ==> {
            &&& !session.in_use(fid)
            &&& held.in_use(fid)
            &&& fid != session.root
            &&& fid != NO_FID
            &&& held.wf()
        },
{
}

/// The state of a fetch that began in `start` once it has been handed the
/// first `k` of `replies`.
pub open spec fn state_after(start: FetchView, replies: Seq<ReplyView>, k: nat) -> FetchView
    decreases k,
{
    if k == 0 {
        start
    } else {
        fetch_step(state_after(start, replies, (k - 1) as nat), replies[k - 1]).0
    }
}

/// What the fetch asks for in answer to reply number `k`.
pub open spec fn step_at(start: FetchView, replies: Seq<ReplyView>, k: nat) -> FetchStepView {
    fetch_step(state_after(start, replies, k), replies[k as int]).1
}

/// The bytes a step hands to the sink.
pub open spec fn step_delivery(step: FetchStepView) -> Seq<u8> {
    match step {
        FetchStepView::Deliver { data, .. } => data,
        _ => Seq::empty(),
    }
}

/// The bytes a reply carries in answer to a read of the file.
pub open spec fn reply_payload(fetch: FetchView, reply: ReplyView) -> Seq<u8> {
    match (fetch, reply) {
        (
            FetchView::Reading { .. },
            ReplyView::Message(ResponseView::Read { data }),
        ) => data,
        _ => Seq::empty(),
    }
}

/// Whether a step asks the server for more of the file.
pub open spec fn asks_to_read(step: FetchStepView) -> bool {
    match step {
        FetchStepView::Send(request) => request.request is Read,
        FetchStepView::Deliver { .. } => true,
        FetchStepView::Finished { .. } => false,
    }
}

/// Whether a step asks the server to release a handle.
pub open spec fn asks_to_release(step: FetchStepView) -> bool {
    step matches FetchStepView::Send(request) && request.request is Clunk
}

/// All bytes handed to the sink by the answers to the first `k` replies.
pub open spec fn delivered(start: FetchView, replies: Seq<ReplyView>, k: nat) -> Seq<u8>
    decreases k,
{
    if k == 0 {
        Seq::empty()
    } else {
        let before = (k - 1) as nat;
        delivered(start, replies, before) + step_delivery(step_at(start, replies, before))
    }
}

/// All bytes the server returned to reads among the first `k` replies.
pub open spec fn returned(start: FetchView, replies: Seq<ReplyView>, k: nat) -> Seq<u8>
    decreases k,
{
    if k == 0 {
        Seq::empty()
    } else {
        let before = (k - 1) as nat;
        returned(start, replies, before) + reply_payload(
            state_after(start, replies, before),
            replies[before as int],
        )
    }
}

/// How many releases the answers to the first `k` replies have asked for.
pub open spec fn releases(start: FetchView, replies: Seq<ReplyView>, k: nat) -> nat
    decreases k,
{
    if k == 0 {
        0
    } else {
        let before = (k - 1) as nat;
        releases(start, replies, before) + if asks_to_release(step_at(start, replies, before)) {
            1nat
        } else {
            0nat
        }
    }
}

/// Whether, among the first `k` replies, the server has answered the open
/// request by opening the handle.
pub open spec fn was_opened(start: FetchView, replies: Seq<ReplyView>, k: nat) -> bool
    decreases k,
{
    if k == 0 {
        false
    } else {
        let before = (k - 1) as nat;
        was_opened(start, replies, before) || (state_after(start, replies, before) is Opening
            && replies[before as int] matches ReplyView::Message(ResponseView::Open { .. }))
    }
}

/// A state a fetch can begin in: it has sent its walk, or was refused.
pub open spec fn initial(start: FetchView) -> bool {
    start is Walking || start is Finished
}

/// What holds of a fetch after any number of replies.
spec fn consistent(start: FetchView, replies: Seq<ReplyView>, k: nat) -> bool {
    let sent = delivered(start, replies, k);
    let got = returned(start, replies, k);
    let open = was_opened(start, replies, k);
    let freed = releases(start, replies, k);
    match state_after(start, replies, k) {
        FetchView::Walking { .. } | FetchView::Opening { .. } => {
            &&& sent.len() == 0
            &&& got.len() == 0
            &&& !open
            &&& freed == 0
        },
        FetchView::Reading { offset, .. } => {
            &&& sent == got
            &&& offset == sent.len()
            &&& open
            &&& freed == 0
        },
        FetchView::Releasing { result, .. } => {
            &&& result is Ok ==> sent == got
            &&& open
            &&& freed == 1
        },
        FetchView::Finished { .. } => {
            &&& freed == if open { 1nat } else { 0nat }
            &&& k > 0 ==> (step_at(start, replies, (k - 1) as nat) matches FetchStepView::Finished {
                result: Ok(_),
                ..
            } ==> sent == got)
        },
    }
}

proof fn lemma_consistent(start: FetchView, replies: Seq<ReplyView>, k: nat)
    requires
        initial(start),
        k <= replies.len(),
    ensures
        consistent(start, replies, k),
    decreases k,
{
    if k > 0 {
        lemma_consistent(start, replies, (k - 1) as nat);
    }
}

/// Every byte the server returns reaches the sink, in order, and nothing
/// else does. While a fetch is reading, what it has handed to the sink is
/// what the server has returned so far, and the offset of the outstanding
/// read is the number of those bytes; the same equality holds when the
/// read has ended well and when the fetch has finished with success.
pub proof fn lemma_sink_receives_what_server_returned(
    start: FetchView,
    replies: Seq<ReplyView>,
    k: nat,
)
    requires
        initial(start),
        k <= replies.len(),
    ensures
        state_after(start, replies, k) matches FetchView::Reading { offset, .. } ==> {
            &&& delivered(start, replies, k) == returned(start, replies, k)
            &&& offset == delivered(start, replies, k).len()
        },
        state_after(start, replies, k) matches FetchView::Releasing { result: Ok(_), .. }
            ==> delivered(start, replies, k) == returned(start, replies, k),
        k > 0 && (step_at(start, replies, (k - 1) as nat) matches FetchStepView::Finished {
            result: Ok(_),
            ..
        }) ==> delivered(start, replies, k) == returned(start, replies, k),
{
    lemma_consistent(start, replies, k);
    if k > 0 {
        let before = (k - 1) as nat;
        lemma_consistent(start, replies, before);
    }
}

proof fn lemma_reading_is_over(start: FetchView, replies: Seq<ReplyView>, i: nat, j: nat)
    requires
        i <= j,
        state_after(start, replies, i) is Releasing || state_after(start, replies, i) is Finished,
    ensures
        state_after(start, replies, j) is Releasing || state_after(start, replies, j) is Finished,
        !asks_to_read(step_at(start, replies, j)),
    decreases j - i,
{
    if i < j {
        lemma_reading_is_over(start, replies, i, (j - 1) as nat);
    }
}

/// The read loop ends at the first empty reply: once the server has
/// answered a read with no bytes, the fetch never asks to read again.
pub proof fn lemma_no_read_past_end_of_file(
    start: FetchView,
    replies: Seq<ReplyView>,
    i: nat,
    j: nat,
)
    requires
        i <= j,
        state_after(start, replies, i) is Reading,
        replies[i as int] matches ReplyView::Message(ResponseView::Read { data }) && data.len()
            == 0,
    ensures
        !asks_to_read(step_at(start, replies, j)),
{
    if i < j {
        lemma_reading_is_over(start, replies, i + 1, j);
    }
}

/// Every handle the server opened is released exactly once, whatever
/// becomes of the read. A fetch that is still walking or opening has asked
/// for no release; one that is reading owes it; once the read is over,
/// however it ended, the release has been asked for; and a finished fetch
/// has asked for one release if the handle was opened and for none if not.
pub proof fn lemma_one_release_per_opened_handle(
    start: FetchView,
    replies: Seq<ReplyView>,
    k: nat,
)
    requires
        initial(start),
        k <= replies.len(),
    ensures
        match state_after(start, replies, k) {
            FetchView::Walking { .. } | FetchView::Opening { .. } => {
                !was_opened(start, replies, k) && releases(start, replies, k) == 0
            },
            FetchView::Reading { .. } => {
                was_opened(start, replies, k) && releases(start, replies, k) == 0
            },
            FetchView::Releasing { .. } => {
                was_opened(start, replies, k) && releases(start, replies, k) == 1
            },
            FetchView::Finished { .. } => releases(start, replies, k) == if was_opened(
                start,
                replies,
                k,
            ) {
                1nat
            } else {
                0nat
            },
        },
{
    lemma_consistent(start, replies, k);
}

/// The handle a fetch works on, while it has one.
pub open spec fn handle(fetch: FetchView) -> Option<u32> {
    match fetch {
        FetchView::Walking { fid, .. } => Some(fid),
        FetchView::Opening { fid, .. } => Some(fid),
        FetchView::Reading { fid, .. } => Some(fid),
        FetchView::Releasing { fid, .. } => Some(fid),
        FetchView::Finished { .. } => None,
    }
}

/// The request a step sends, if it sends one.
pub open spec fn step_request(step: FetchStepView) -> Option<TaggedRequestView> {
    match step {
        FetchStepView::Send(request) => Some(request),
        FetchStepView::Deliver { then, .. } => Some(then),
        FetchStepView::Finished { .. } => None,
    }
}

/// A fetch keeps to the handle it walked to: whatever it sends after the
/// walk names that handle, and the release in particular.
pub proof fn lemma_release_names_the_handle(
    start: FetchView,
    replies: Seq<ReplyView>,
    k: nat,
)
    requires
        start is Walking,
    ensures
        state_after(start, replies, k) is Finished || handle(state_after(start, replies, k))
            == handle(start),
        asks_to_release(step_at(start, replies, k)) ==> (step_request(
            step_at(start, replies, k),
        ) matches Some(request) && request.request == (RequestView::Clunk {
            fid: handle(start)->0,
        })),
    decreases k,
{
    if k > 0 {
        lemma_release_names_the_handle(start, replies, (k - 1) as nat);
    }
}

/// Requests carry the session's tags in the order they are sent: each
/// request takes the tag the session holds out, and the session then holds
/// out the tag after it. A step that sends nothing leaves the session as
/// it is. No request of a well-formed session carries the reserved tag.
pub proof fn lemma_each_request_takes_the_next_tag(fetch: FetchView, reply: ReplyView)
    ensures
        match step_request(fetch_step(fetch, reply).1) {
            Some(request) => {
                &&& request.tag == fetch.session().next_tag
                &&& fetch_step(fetch, reply).0.session() == fetch.session().tagged()
                &&& fetch.session().wf() ==> request.tag != NO_TAG
            },
            None => fetch_step(fetch, reply).0.session() == fetch.session(),
        },
        fetch.session().wf() ==> fetch_step(fetch, reply).0.session().wf(),
{
}

} // verus!
