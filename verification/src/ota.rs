//! The update cycle: on every tick, compare the published firmware version
//! with the running one and, if they differ, stream the published image
//! into an update transaction that is then committed or aborted.

use vstd::prelude::*;
use vstd::string::*;

use crate::error::{failure_error, Error, ErrorView};
use crate::fetch::{
    fetch_begin, fetch_step, lemma_each_request_takes_the_next_tag, Fetch, FetchStep,
    FetchStepView, FetchView,
};
use crate::handshake::{
    handshake_step, spec_version_request, Handshake, HandshakePhase, HandshakeStep,
    HandshakeStepView, Session,
};
use crate::message::{
    Failure, Reply, ReplyView, Response, ResponseView, TaggedRequest, TaggedRequestView, NO_TAG,
};
use crate::reader::{warning_view, ReleaseWarning, ReleaseWarningView};
use crate::version::{remote_version, select_update, spec_remote_version};

verus! {

/// Seconds between the end of one cycle and the start of the next.
pub const POLL_INTERVAL_SECS: u64 = 16;

/// Seconds before the first cycle, to let the network come up.
pub const INITIAL_DELAY_SECS: u64 = 30;

/// The life of one staged firmware image.
#[derive(Clone, Copy, Debug, PartialEq, Eq, Structural)]
pub enum UpdateTransaction {
    /// The apply pipeline is open and takes bytes.
    Initiated,
    /// The whole image has been written.
    Staged,
    /// The image is final; the device boots into it next.
    Committed,
    /// The image is discarded; the running image stays in charge.
    Aborted,
}

impl UpdateTransaction {
    /// Whether the transaction has ended.
    pub open spec fn is_terminal(self) -> bool {
        self is Committed || self is Aborted
    }

    /// Whether a transaction in this state may be in state `next` a step
    /// later: an image is staged before it is committed, anything not yet
    /// committed can be aborted, and what has ended stays as it is.
    pub open spec fn may_become(self, next: UpdateTransaction) -> bool {
        match self {
            UpdateTransaction::Initiated => !(next is Committed),
            UpdateTransaction::Staged => !(next is Initiated),
            UpdateTransaction::Committed => next is Committed,
            UpdateTransaction::Aborted => next is Aborted,
        }
    }
}

/// What the driver reports back to the handler.
#[derive(Debug, PartialEq, Eq)]
pub enum Event {
    /// The wait is over.
    TimerFired,
    /// The connection is open.
    Connected,
    /// The server's reply to the request last sent.
    Message(Response),
    /// The version token of the running firmware, if it carries one.
    RunningVersion(Option<String>),
    /// The update pipeline did what it was asked to do.
    Done,
    /// What was asked for could not be done.
    Failed(Failure),
}

/// The mathematical content of an [`Event`].
pub enum EventView {
    TimerFired,
    Connected,
    Message(ResponseView),
    RunningVersion(Option<Seq<char>>),
    Done,
    Failed(Failure),
}

impl View for Event {
    type V = EventView;

    open spec fn view(&self) -> EventView {
        match *self {
            Event::TimerFired => EventView::TimerFired,
            Event::Connected => EventView::Connected,
            Event::Message(response) => EventView::Message(response@),
            Event::RunningVersion(version) => EventView::RunningVersion(
                match version {
                    Some(v) => Some(v@),
                    None => None,
                },
            ),
            Event::Done => EventView::Done,
            Event::Failed(failure) => EventView::Failed(failure),
        }
    }
}

/// How a cycle ended.
#[derive(Debug, PartialEq, Eq)]
pub enum CycleEnd {
    /// The running firmware is the published one.
    UpToDate,
    /// The published image is committed; the device is to reboot into it.
    Committed { version: String },
    /// The download failed for `cause` and the transaction was aborted;
    /// `clean` tells whether the pipeline confirmed the abort.
    Aborted { cause: Error, clean: bool },
    /// The cycle failed outside a download.
    Failed(Error),
}

/// The mathematical content of a [`CycleEnd`].
pub enum CycleEndView {
    UpToDate,
    Committed { version: Seq<char> },
    Aborted { cause: ErrorView, clean: bool },
    Failed(ErrorView),
}

impl View for CycleEnd {
    type V = CycleEndView;

    open spec fn view(&self) -> CycleEndView {
        match *self {
            CycleEnd::UpToDate => CycleEndView::UpToDate,
            CycleEnd::Committed { version } => CycleEndView::Committed { version: version@ },
            CycleEnd::Aborted { cause, clean } => CycleEndView::Aborted { cause: cause@, clean },
            CycleEnd::Failed(error) => CycleEndView::Failed(error@),
        }
    }
}

/// What the handler asks the driver to do next. The driver does it and
/// reports the outcome as an [`Event`].
#[derive(Debug, PartialEq, Eq)]
pub enum Action {
    /// Drop the connection, if one is open, wait `seconds` and report
    /// `TimerFired`. `ended` tells how the cycle before the wait ended.
    Wait { seconds: u64, ended: Option<CycleEnd> },
    /// Open a connection to `addr`; report `Connected` or `Failed`.
    Connect { addr: String },
    /// Send the request; report the reply as `Message`, or `Failed`.
    Send(TaggedRequest),
    /// Write `data` into the update pipeline; if that fails report
    /// `Failed(Write)`, and if not, send `then` and report as for `Send`.
    Write { data: Vec<u8>, then: TaggedRequest },
    /// Report the version token of the running firmware.
    ReadRunningVersion,
    /// Open the update pipeline; report `Done` or `Failed`.
    Initiate,
    /// Make the staged image final; report `Done` or `Failed`.
    Commit,
    /// Discard what has been staged; report `Done` or `Failed`.
    Abort,
}

/// The mathematical content of an [`Action`].
pub enum ActionView {
    Wait { seconds: u64, ended: Option<CycleEndView> },
    Connect { addr: Seq<char> },
    Send(TaggedRequestView),
    Write { data: Seq<u8>, then: TaggedRequestView },
    ReadRunningVersion,
    Initiate,
    Commit,
    Abort,
}

impl View for Action {
    type V = ActionView;

    open spec fn view(&self) -> ActionView {
        match *self {
            Action::Wait { seconds, ended } => ActionView::Wait {
                seconds,
                ended: match ended {
                    Some(end) => Some(end@),
                    None => None,
                },
            },
            Action::Connect { addr } => ActionView::Connect { addr: addr@ },
            Action::Send(request) => ActionView::Send(request@),
            Action::Write { data, then } => ActionView::Write { data: data@, then: then@ },
            Action::ReadRunningVersion => ActionView::ReadRunningVersion,
            Action::Initiate => ActionView::Initiate,
            Action::Commit => ActionView::Commit,
            Action::Abort => ActionView::Abort,
        }
    }
}

impl ActionView {
    /// Whether the action touches the update pipeline.
    pub open spec fn touches_pipeline(self) -> bool {
        self is Initiate || self is Write || self is Commit || self is Abort
    }
}

/// Where a cycle stands: what the handler is waiting for.
#[derive(Debug, PartialEq, Eq)]
pub enum Phase {
    /// Between cycles: the wait is running.
    Idle,
    /// The connection is being opened.
    Connecting,
    /// The handshake is under way.
    Handshaking { handshake: Handshake },
    /// The version marker is being fetched; `marker` holds its bytes so far.
    CheckingVersion { fetch: Fetch, marker: Vec<u8> },
    /// The driver has been asked for the running version; `remote` is the
    /// published one.
    ReadingRunningVersion { session: Session, remote: String },
    /// The update pipeline is being opened for version `remote`.
    Initiating { session: Session, remote: String },
    /// The image of version `remote` is being fetched into the pipeline.
    Downloading { fetch: Fetch, remote: String },
    /// The staged image of version `remote` is being committed.
    Committing { remote: String },
    /// The transaction is being aborted because the download failed.
    Aborting { cause: Error },
}

/// The mathematical content of a [`Phase`].
pub enum PhaseView {
    Idle,
    Connecting,
    Handshaking { handshake: HandshakePhase },
    CheckingVersion { fetch: FetchView, marker: Seq<u8> },
    ReadingRunningVersion { session: Session, remote: Seq<char> },
    Initiating { session: Session, remote: Seq<char> },
    Downloading { fetch: FetchView, remote: Seq<char> },
    Committing { remote: Seq<char> },
    Aborting { cause: ErrorView },
}

impl View for Phase {
    type V = PhaseView;

    open spec fn view(&self) -> PhaseView {
        match *self {
            Phase::Idle => PhaseView::Idle,
            Phase::Connecting => PhaseView::Connecting,
            Phase::Handshaking { handshake } => PhaseView::Handshaking {
                handshake: handshake.phase,
            },
            Phase::CheckingVersion { fetch, marker } => PhaseView::CheckingVersion {
                fetch: fetch@,
                marker: marker@,
            },
            Phase::ReadingRunningVersion { session, remote } => PhaseView::ReadingRunningVersion {
                session,
                remote: remote@,
            },
            Phase::Initiating { session, remote } => PhaseView::Initiating {
                session,
                remote: remote@,
            },
            Phase::Downloading { fetch, remote } => PhaseView::Downloading {
                fetch: fetch@,
                remote: remote@,
            },
            Phase::Committing { remote } => PhaseView::Committing { remote: remote@ },
            Phase::Aborting { cause } => PhaseView::Aborting { cause: cause@ },
        }
    }
}

impl PhaseView {
    /// Whether an update transaction is open in this phase.
    pub open spec fn in_transaction(self) -> bool {
        self is Downloading || self is Committing || self is Aborting
    }
}

/// The update handler: a server address, the base path of the firmware
/// tree on it, and the state of the current cycle.
#[derive(Debug, PartialEq, Eq)]
pub struct OtaHandler {
    /// Address of the file server.
    pub addr: String,
    /// Directory on the server that holds `version` and `files/`.
    pub path: String,
    /// What the handler is waiting for.
    pub phase: Phase,
    /// The transaction of the current cycle or, between cycles, of the last
    /// one; `None` if that cycle opened none.
    pub transaction: Option<UpdateTransaction>,
    /// What went wrong with the release of a file's handle, if the last
    /// step ended a fetch and its release went wrong.
    pub warning: Option<ReleaseWarning>,
}

/// The mathematical content of an [`OtaHandler`].
pub struct OtaView {
    pub addr: Seq<char>,
    pub path: Seq<char>,
    pub phase: PhaseView,
    pub transaction: Option<UpdateTransaction>,
    pub warning: Option<ReleaseWarningView>,
}

impl View for OtaHandler {
    type V = OtaView;

    open spec fn view(&self) -> OtaView {
        OtaView {
            addr: self.addr@,
            path: self.path@,
            phase: self.phase@,
            transaction: self.transaction,
            warning: warning_view(self.warning),
        }
    }
}

impl OtaView {
    /// The transaction recorded matches the phase: none before one is
    /// opened, an open one exactly while it is being filled, committed or
    /// aborted, and between cycles none that is still open. The session of
    /// the cycle, while there is one, is well formed.
    pub open spec fn wf(self) -> bool {
        match self.phase {
            PhaseView::Idle => match self.transaction {
                Some(transaction) => transaction.is_terminal(),
                None => true,
            },
            PhaseView::Connecting | PhaseView::Handshaking { .. } => self.transaction is None,
            PhaseView::CheckingVersion { fetch, .. } => {
                &&& self.transaction is None
                &&& fetch.session().wf()
            },
            PhaseView::ReadingRunningVersion { session, .. } => {
                &&& self.transaction is None
                &&& session.wf()
            },
            PhaseView::Initiating { session, .. } => {
                &&& self.transaction is None
                &&& session.wf()
            },
            PhaseView::Downloading { fetch, .. } => {
                &&& self.transaction == Some(UpdateTransaction::Initiated)
                &&& fetch.session().wf()
            },
            PhaseView::Aborting { .. } => self.transaction == Some(UpdateTransaction::Initiated),
            PhaseView::Committing { .. } => self.transaction == Some(UpdateTransaction::Staged),
        }
    }
}

/// The path of the version marker under `base`.
pub open spec fn version_path(base: Seq<char>) -> Seq<char> {
    base + "/version"@
}

/// The path of the image of `version` under `base`.
pub open spec fn firmware_path(base: Seq<char>, version: Seq<char>) -> Seq<char> {
    base + "/files/"@ + version
}

/// An event read as the reply to a request: anything that is neither a
/// message nor a failure does not answer the request.
pub open spec fn event_reply(event: EventView) -> ReplyView {
    match event {
        EventView::Message(response) => ReplyView::Message(response),
        EventView::Failed(failure) => ReplyView::Failed(failure),
        _ => ReplyView::Failed(Failure::Unexpected),
    }
}

/// The error that an event amounts to where success was hoped for.
pub open spec fn event_error(event: EventView) -> ErrorView {
    match event {
        EventView::Failed(failure) => failure_error(failure),
        _ => ErrorView::UnexpectedEvent,
    }
}

/// The end of a cycle: back to idle, with the next wait.
pub open spec fn conclude(
    handler: OtaView,
    transaction: Option<UpdateTransaction>,
    warning: Option<ReleaseWarningView>,
    end: CycleEndView,
) -> (OtaView, ActionView) {
    (
        OtaView { phase: PhaseView::Idle, transaction, warning, ..handler },
        ActionView::Wait { seconds: POLL_INTERVAL_SECS, ended: Some(end) },
    )
}

/// What follows a step of the fetch of the version marker. Bytes of the
/// marker are kept; when the fetch has ended well, the marker is read as a
/// version token and the driver is asked for the running one.
pub open spec fn continue_check(
    handler: OtaView,
    fetch: FetchView,
    marker: Seq<u8>,
    step: FetchStepView,
) -> (OtaView, ActionView) {
    match step {
        FetchStepView::Send(request) => (
            OtaView {
                phase: PhaseView::CheckingVersion { fetch, marker },
                warning: None,
                ..handler
            },
            ActionView::Send(request),
        ),
        FetchStepView::Deliver { data, then } => (
            OtaView {
                phase: PhaseView::CheckingVersion { fetch, marker: marker + data },
                warning: None,
                ..handler
            },
            ActionView::Send(then),
        ),
        FetchStepView::Finished { result: Ok(_), warning } => (
            OtaView {
                phase: PhaseView::ReadingRunningVersion {
                    session: fetch.session(),
                    remote: spec_remote_version(marker),
                },
                warning,
                ..handler
            },
            ActionView::ReadRunningVersion,
        ),
        FetchStepView::Finished { result: Err(error), warning } => conclude(
            handler,
            None,
            warning,
            CycleEndView::Failed(error),
        ),
    }
}

/// What follows the handshake: the fetch of the version marker begins.
pub open spec fn begin_check(handler: OtaView, session: Session) -> (OtaView, ActionView) {
    let (fetch, step) = fetch_begin(session, version_path(handler.path));
    continue_check(handler, fetch, Seq::empty(), step)
}

/// The decision to update. Only equality counts: if the running token is
/// the published one the cycle ends, and if it differs in any way an update
/// transaction is opened.
pub open spec fn compare(
    handler: OtaView,
    session: Session,
    remote: Seq<char>,
    event: EventView,
) -> (OtaView, ActionView) {
    match event {
        EventView::RunningVersion(Some(running)) => if running == remote {
            conclude(handler, None, None, CycleEndView::UpToDate)
        } else {
            (
                OtaView {
                    phase: PhaseView::Initiating { session, remote },
                    warning: None,
                    ..handler
                },
                ActionView::Initiate,
            )
        },
        EventView::RunningVersion(None) => conclude(
            handler,
            None,
            None,
            CycleEndView::Failed(ErrorView::FirmwareInfoMissing),
        ),
        _ => conclude(handler, None, None, CycleEndView::Failed(event_error(event))),
    }
}

/// What follows a step of the fetch of the image. Bytes go to the
/// pipeline; when the fetch has ended well the image is staged and is
/// committed, and when it has failed the transaction is aborted.
pub open spec fn continue_download(
    handler: OtaView,
    fetch: FetchView,
    remote: Seq<char>,
    step: FetchStepView,
) -> (OtaView, ActionView) {
    match step {
        FetchStepView::Send(request) => (
            OtaView {
                phase: PhaseView::Downloading { fetch, remote },
                transaction: Some(UpdateTransaction::Initiated),
                warning: None,
                ..handler
            },
            ActionView::Send(request),
        ),
        FetchStepView::Deliver { data, then } => (
            OtaView {
                phase: PhaseView::Downloading { fetch, remote },
                transaction: Some(UpdateTransaction::Initiated),
                warning: None,
                ..handler
            },
            ActionView::Write { data, then },
        ),
        FetchStepView::Finished { result: Ok(_), warning } => (
            OtaView {
                phase: PhaseView::Committing { remote },
                transaction: Some(UpdateTransaction::Staged),
                warning,
                ..handler
            },
            ActionView::Commit,
        ),
        FetchStepView::Finished { result: Err(error), warning } => (
            OtaView {
                phase: PhaseView::Aborting { cause: error },
                transaction: Some(UpdateTransaction::Initiated),
                warning,
                ..handler
            },
            ActionView::Abort,
        ),
    }
}

/// What follows the opening of the pipeline: the fetch of the image of
/// version `remote` begins.
pub open spec fn begin_download(handler: OtaView, session: Session, remote: Seq<char>) -> (
    OtaView,
    ActionView,
) {
    let (fetch, step) = fetch_begin(session, firmware_path(handler.path, remote));
    continue_download(handler, fetch, remote, step)
}

/// The transition of the handler: from its state and the outcome of what
/// it last asked for, the next state and what to do.
pub open spec fn ota_step(handler: OtaView, event: EventView) -> (OtaView, ActionView) {
    match handler.phase {
        PhaseView::Idle => match event {
            EventView::TimerFired => (
                OtaView {
                    phase: PhaseView::Connecting,
                    transaction: None,
                    warning: None,
                    ..handler
                },
                ActionView::Connect { addr: handler.addr },
            ),
            _ => conclude(
                handler,
                handler.transaction,
                None,
                CycleEndView::Failed(ErrorView::UnexpectedEvent),
            ),
        },
        PhaseView::Connecting => match event {
            EventView::Connected => (
                OtaView {
                    phase: PhaseView::Handshaking { handshake: HandshakePhase::Version },
                    warning: None,
                    ..handler
                },
                ActionView::Send(spec_version_request()),
            ),
            _ => conclude(handler, None, None, CycleEndView::Failed(event_error(event))),
        },
        PhaseView::Handshaking { handshake } => match handshake_step(
            handshake,
            event_reply(event),
        ) {
            (next, HandshakeStepView::Send(request)) => (
                OtaView {
                    phase: PhaseView::Handshaking { handshake: next },
                    warning: None,
                    ..handler
                },
                ActionView::Send(request),
            ),
            (_, HandshakeStepView::Established(session)) => begin_check(handler, session),
            (_, HandshakeStepView::Failed(error)) => conclude(
                handler,
                None,
                None,
                CycleEndView::Failed(error),
            ),
        },
        PhaseView::CheckingVersion { fetch, marker } => {
            let (fetch, step) = fetch_step(fetch, event_reply(event));
            continue_check(handler, fetch, marker, step)
        },
        PhaseView::ReadingRunningVersion { session, remote } => compare(
            handler,
            session,
            remote,
            event,
        ),
        PhaseView::Initiating { session, remote } => match event {
            EventView::Done => begin_download(handler, session, remote),
            _ => conclude(handler, None, None, CycleEndView::Failed(event_error(event))),
        },
        PhaseView::Downloading { fetch, remote } => {
            let (fetch, step) = fetch_step(fetch, event_reply(event));
            continue_download(handler, fetch, remote, step)
        },
        PhaseView::Committing { remote } => match event {
            EventView::Done => conclude(
                handler,
                Some(UpdateTransaction::Committed),
                None,
                CycleEndView::Committed { version: remote },
            ),
            _ => conclude(
                handler,
                Some(UpdateTransaction::Aborted),
                None,
                CycleEndView::Failed(event_error(event)),
            ),
        },
        PhaseView::Aborting { cause } => conclude(
            handler,
            Some(UpdateTransaction::Aborted),
            None,
            CycleEndView::Aborted { cause, clean: event is Done },
        ),
    }
}

/// Reads an event as the reply to a request.
pub fn into_reply(event: Event) -> (reply: Reply)
    ensures
        reply@ == event_reply(event@),
{
    match event {
        Event::Message(response) => Reply::Message(response),
        Event::Failed(failure) => Reply::Failed(failure),
        _ => Reply::Failed(Failure::Unexpected),
    }
}

/// The error that an event amounts to where success was hoped for.
pub fn into_error(event: Event) -> (error: Error)
    ensures
        error@ == event_error(event@),
{
    match event {
        Event::Failed(failure) => Error::from_failure(failure),
        _ => Error::UnexpectedEvent,
    }
}

/// The version token of the running firmware, or the error in its place
/// when the firmware carries none.
pub fn get_running_version(reported: Option<String>) -> (running: Result<String, Error>)
    ensures
        match reported {
            Some(version) => running == Ok::<String, Error>(version),
            None => running matches Err(error) && error@ == ErrorView::FirmwareInfoMissing,
        },
{
    match reported {
        Some(version) => Ok(version),
        None => Err(Error::FirmwareInfoMissing),
    }
}

impl OtaHandler {
    /// A handler for the firmware tree at `path` on the server at `addr`,
    /// between cycles and with no transaction behind it.
    pub fn new(addr: String, path: String) -> (handler: OtaHandler)
        ensures
            handler@ == (OtaView {
                addr: addr@,
                path: path@,
                phase: PhaseView::Idle,
                transaction: None,
                warning: None,
            }),
            handler@.wf(),
    {
        OtaHandler { addr, path, phase: Phase::Idle, transaction: None, warning: None }
    }

    /// What a fresh handler asks for first: the wait before the first cycle.
    pub fn start(&self) -> (action: Action)
        ensures
            action@ == (ActionView::Wait { seconds: INITIAL_DELAY_SECS, ended: None }),
    {
        Action::Wait { seconds: INITIAL_DELAY_SECS, ended: None }
    }

    /// Ends the cycle.
    fn conclude(
        &mut self,
        transaction: Option<UpdateTransaction>,
        warning: Option<ReleaseWarning>,
        end: CycleEnd,
    ) -> (action: Action)
        ensures
            (final(self)@, action@) == conclude(
                old(self)@,
                transaction,
                warning_view(warning),
                end@,
            ),
    {
        self.phase = Phase::Idle;
        self.transaction = transaction;
        self.warning = warning;
        Action::Wait { seconds: POLL_INTERVAL_SECS, ended: Some(end) }
    }

    /// Follows up a step of the fetch of the version marker.
    fn continue_check(&mut self, fetch: Fetch, marker: Vec<u8>, step: FetchStep) -> (action:
        Action)
        ensures
            (final(self)@, action@) == continue_check(old(self)@, fetch@, marker@, step@),
    {
        match step {
            FetchStep::Send(request) => {
                self.phase = Phase::CheckingVersion { fetch, marker };
                self.warning = None;
                Action::Send(request)
            },
            FetchStep::Deliver { data, then } => {
                let mut marker = marker;
                let mut data = data;
                marker.append(&mut data);
                self.phase = Phase::CheckingVersion { fetch, marker };
                self.warning = None;
                Action::Send(then)
            },
            FetchStep::Finished { result: Ok(_), warning } => {
                let remote = remote_version(&marker);
                self.phase = Phase::ReadingRunningVersion { session: fetch.session(), remote };
                self.warning = warning;
                Action::ReadRunningVersion
            },
            FetchStep::Finished { result: Err(error), warning } => self.conclude(
                None,
                warning,
                CycleEnd::Failed(error),
            ),
        }
    }

    /// Decides, from the running version the driver reports, whether the
    /// published version `remote` is to be installed.
    pub fn check_update(&mut self, session: Session, remote: String, event: Event) -> (action:
        Action)
        ensures
            (final(self)@, action@) == compare(old(self)@, session, remote@, event@),
    {
        match event {
            Event::RunningVersion(reported) => match get_running_version(reported) {
                Ok(running) => match select_update(remote, &running) {
                    None => self.conclude(None, None, CycleEnd::UpToDate),
                    Some(remote) => {
                        self.phase = Phase::Initiating { session, remote };
                        self.warning = None;
                        Action::Initiate
                    },
                },
                Err(error) => self.conclude(None, None, CycleEnd::Failed(error)),
            },
            other => {
                let error = into_error(other);
                self.conclude(None, None, CycleEnd::Failed(error))
            },
        }
    }

    /// Follows up a step of the fetch of the image: passes bytes on to the
    /// pipeline, commits when the image is complete, aborts when the fetch
    /// has failed.
    pub fn perform_update(&mut self, fetch: Fetch, remote: String, step: FetchStep) -> (action:
        Action)
        ensures
            (final(self)@, action@) == continue_download(old(self)@, fetch@, remote@, step@),
    {
        match step {
            FetchStep::Send(request) => {
                self.phase = Phase::Downloading { fetch, remote };
                self.transaction = Some(UpdateTransaction::Initiated);
                self.warning = None;
                Action::Send(request)
            },
            FetchStep::Deliver { data, then } => {
                self.phase = Phase::Downloading { fetch, remote };
                self.transaction = Some(UpdateTransaction::Initiated);
                self.warning = None;
                Action::Write { data, then }
            },
            FetchStep::Finished { result: Ok(_), warning } => {
                self.phase = Phase::Committing { remote };
                self.transaction = Some(UpdateTransaction::Staged);
                self.warning = warning;
                Action::Commit
            },
            FetchStep::Finished { result: Err(error), warning } => {
                self.phase = Phase::Aborting { cause: error };
                self.transaction = Some(UpdateTransaction::Initiated);
                self.warning = warning;
                Action::Abort
            },
        }
    }

    /// Begins the download of the image of version `remote` into the
    /// pipeline that has just been opened.
    pub fn download_update(&mut self, session: Session, remote: String) -> (action: Action)
        ensures
            (final(self)@, action@) == begin_download(old(self)@, session, remote@),
    {
        let firmware_path = self.path.clone().concat("/files/").concat(remote.as_str());
        let (fetch, step) = Fetch::begin(session, firmware_path.as_str());
        self.perform_update(fetch, remote, step)
    }

    /// Advances the handler by the outcome of what it last asked for.
    pub fn run(&mut self, event: Event) -> (action: Action)
        ensures
            (final(self)@, action@) == ota_step(old(self)@, event@),
            old(self)@.wf() ==> final(self)@.wf(),
    {
        proof {
            if old(self)@.wf() {
                lemma_step_keeps_handler_well_formed(old(self)@, event@);
            }
        }
        let mut phase = Phase::Idle;
        core::mem::swap(&mut self.phase, &mut phase);
        match phase {
            Phase::Idle => match event {
                Event::TimerFired => {
                    self.phase = Phase::Connecting;
                    self.transaction = None;
                    self.warning = None;
                    Action::Connect { addr: self.addr.clone() }
                },
                _ => {
                    let transaction = self.transaction;
                    self.conclude(transaction, None, CycleEnd::Failed(Error::UnexpectedEvent))
                },
            },
            Phase::Connecting => match event {
                Event::Connected => {
                    let (handshake, request) = Handshake::begin();
                    self.phase = Phase::Handshaking { handshake };
                    self.warning = None;
                    Action::Send(request)
                },
                other => {
                    let error = into_error(other);
                    self.conclude(None, None, CycleEnd::Failed(error))
                },
            },
            Phase::Handshaking { handshake } => {
                let mut handshake = handshake;
                match handshake.perform_handshake(into_reply(event)) {
                    HandshakeStep::Send(request) => {
                        self.phase = Phase::Handshaking { handshake };
                        self.warning = None;
                        Action::Send(request)
                    },
                    HandshakeStep::Established(session) => {
                        let version_path = self.path.clone().concat("/version");
                        let (fetch, step) = Fetch::begin(session, version_path.as_str());
                        self.continue_check(fetch, Vec::new(), step)
                    },
                    HandshakeStep::Failed(error) => self.conclude(
                        None,
                        None,
                        CycleEnd::Failed(error),
                    ),
                }
            },
            Phase::CheckingVersion { fetch, marker } => {
                let mut fetch = fetch;
                let step = fetch.cat_file(into_reply(event));
                self.continue_check(fetch, marker, step)
            },
            Phase::ReadingRunningVersion { session, remote } => self.check_update(
                session,
                remote,
                event,
            ),
            Phase::Initiating { session, remote } => match event {
                Event::Done => self.download_update(session, remote),
                other => {
                    let error = into_error(other);
                    self.conclude(None, None, CycleEnd::Failed(error))
                },
            },
            Phase::Downloading { fetch, remote } => {
                let mut fetch = fetch;
                let step = fetch.cat_file(into_reply(event));
                self.perform_update(fetch, remote, step)
            },
            Phase::Committing { remote } => match event {
                Event::Done => self.conclude(
                    Some(UpdateTransaction::Committed),
                    None,
                    CycleEnd::Committed { version: remote },
                ),
                other => {
                    let error = into_error(other);
                    self.conclude(Some(UpdateTransaction::Aborted), None, CycleEnd::Failed(error))
                },
            },
            Phase::Aborting { cause } => {
                let clean = match event {
                    Event::Done => true,
                    _ => false,
                };
                self.conclude(
                    Some(UpdateTransaction::Aborted),
                    None,
                    CycleEnd::Aborted { cause, clean },
                )
            },
        }
    }
}

/// A step never leaves the recorded transaction at odds with the phase, nor
/// the session ill formed. In particular no transaction is left open
/// between cycles.
pub proof fn lemma_step_keeps_handler_well_formed(handler: OtaView, event: EventView)
    requires
        handler.wf(),
    ensures
        ota_step(handler, event).0.wf(),
{
    match handler.phase {
        PhaseView::CheckingVersion { fetch, .. } => {
            lemma_each_request_takes_the_next_tag(fetch, event_reply(event));
        },
        PhaseView::Downloading { fetch, .. } => {
            lemma_each_request_takes_the_next_tag(fetch, event_reply(event));
        },
        _ => {},
    }
}

/// The request an action sends, if it sends one.
pub open spec fn action_request(action: ActionView) -> Option<TaggedRequestView> {
    match action {
        ActionView::Send(request) => Some(request),
        ActionView::Write { then, .. } => Some(then),
        _ => None,
    }
}

/// The reserved tag marks the version exchange and nothing else: the
/// request sent on a fresh connection carries it, and no later request of
/// the cycle does.
pub proof fn lemma_only_the_version_request_is_untagged(handler: OtaView, event: EventView)
    requires
        handler.wf(),
    ensures
        action_request(ota_step(handler, event).1) matches Some(request) ==> (request.tag == NO_TAG
            <==> handler.phase is Connecting),
{
    match handler.phase {
        PhaseView::CheckingVersion { fetch, .. } => {
            lemma_each_request_takes_the_next_tag(fetch, event_reply(event));
        },
        PhaseView::Downloading { fetch, .. } => {
            lemma_each_request_takes_the_next_tag(fetch, event_reply(event));
        },
        _ => {},
    }
}

/// A transaction moves through its life in order. A step opens one only
/// where there was none, as `Initiated`; moves an open one only along
/// `Initiated`, `Staged`, `Committed`, or to `Aborted`; and forgets one
/// only when it has ended and the next cycle begins.
pub proof fn lemma_transaction_follows_its_life(handler: OtaView, event: EventView)
    requires
        handler.wf(),
    ensures
        match (handler.transaction, ota_step(handler, event).0.transaction) {
            (None, None) => true,
            (None, Some(opened)) => opened is Initiated,
            (Some(before), Some(after)) => before.may_become(after),
            (Some(before), None) => before.is_terminal() && handler.phase is Idle,
        },
{
}

/// The handler sees every fetch through to its end: while it checks the
/// version or downloads, each event goes to the fetch, and the handler
/// moves on only with the step in which the fetch finishes.
pub proof fn lemma_fetch_runs_to_its_end(handler: OtaView, event: EventView)
    ensures
        match handler.phase {
            PhaseView::CheckingVersion { fetch, .. } => {
                let (next, step) = fetch_step(fetch, event_reply(event));
                step is Finished || (ota_step(handler, event).0.phase
                    matches PhaseView::CheckingVersion { fetch: kept, .. } && kept == next)
            },
            PhaseView::Downloading { fetch, .. } => {
                let (next, step) = fetch_step(fetch, event_reply(event));
                step is Finished || (ota_step(handler, event).0.phase
                    matches PhaseView::Downloading { fetch: kept, .. } && kept == next)
            },
            _ => true,
        },
{
}

/// The handler that began as `start` once it has been handed the first `k`
/// of `events`.
pub open spec fn handler_after(start: OtaView, events: Seq<EventView>, k: nat) -> OtaView
    decreases k,
{
    if k == 0 {
        start
    } else {
        ota_step(handler_after(start, events, (k - 1) as nat), events[k - 1]).0
    }
}

/// What the handler asks for in answer to event number `k`.
pub open spec fn action_at(start: OtaView, events: Seq<EventView>, k: nat) -> ActionView {
    ota_step(handler_after(start, events, k), events[k as int]).1
}

/// Whether `event` tells a handler in state `handler` that the running
/// version differs from the published one.
pub open spec fn versions_differ(handler: OtaView, event: EventView) -> bool {
    &&& handler.phase matches PhaseView::ReadingRunningVersion { remote, .. }
    &&& event matches EventView::RunningVersion(Some(running))
    &&& running != remote
}

/// Whether any of the first `k` events told the handler that the running
/// version differs from the published one.
pub open spec fn versions_differed(start: OtaView, events: Seq<EventView>, k: nat) -> bool
    decreases k,
{
    if k == 0 {
        false
    } else {
        let before = (k - 1) as nat;
        versions_differed(start, events, before) || versions_differ(
            handler_after(start, events, before),
            events[before as int],
        )
    }
}

/// How many of the first `k` actions touch the update pipeline.
pub open spec fn pipeline_actions(start: OtaView, events: Seq<EventView>, k: nat) -> nat
    decreases k,
{
    if k == 0 {
        0
    } else {
        let before = (k - 1) as nat;
        pipeline_actions(start, events, before) + if action_at(
            start,
            events,
            before,
        ).touches_pipeline() {
            1nat
        } else {
            0nat
        }
    }
}

/// As long as the running version has not been found to differ from the
/// published one, no update transaction is opened and nothing is written:
/// whatever the events, no action touches the update pipeline and the
/// handler records no new transaction. Whenever the two tokens are equal
/// the cycle ends up to date.
pub proof fn lemma_equal_versions_open_no_transaction(
    start: OtaView,
    events: Seq<EventView>,
    k: nat,
)
    requires
        !start.phase.in_transaction(),
        !(start.phase is Initiating),
        k <= events.len(),
        !versions_differed(start, events, k),
    ensures
        pipeline_actions(start, events, k) == 0,
        !handler_after(start, events, k).phase.in_transaction(),
        !(handler_after(start, events, k).phase is Initiating),
        handler_after(start, events, k).transaction is None || handler_after(
            start,
            events,
            k,
        ).transaction == start.transaction,
        k > 0 && (handler_after(start, events, (k - 1) as nat).phase
            matches PhaseView::ReadingRunningVersion { remote, .. } && events[k - 1]
            == EventView::RunningVersion(Some(remote))) ==> action_at(
            start,
            events,
            (k - 1) as nat,
        ) == (ActionView::Wait {
            seconds: POLL_INTERVAL_SECS,
            ended: Some(CycleEndView::UpToDate),
        }),
    decreases k,
{
    if k > 0 {
        lemma_equal_versions_open_no_transaction(start, events, (k - 1) as nat);
    }
}

/// How many of the first `k` actions abort the transaction.
pub open spec fn aborts(start: OtaView, events: Seq<EventView>, k: nat) -> nat
    decreases k,
{
    if k == 0 {
        0
    } else {
        let before = (k - 1) as nat;
        aborts(start, events, before) + if action_at(start, events, before) is Abort {
            1nat
        } else {
            0nat
        }
    }
}

/// How many of the first `k` actions commit the transaction.
pub open spec fn commits(start: OtaView, events: Seq<EventView>, k: nat) -> nat
    decreases k,
{
    if k == 0 {
        0
    } else {
        let before = (k - 1) as nat;
        commits(start, events, before) + if action_at(start, events, before) is Commit {
            1nat
        } else {
            0nat
        }
    }
}

/// Whether `event` makes the download of a handler in state `handler` fail:
/// the fetch of the image ends with an error, at its start or later.
pub open spec fn download_fails(handler: OtaView, event: EventView) -> bool {
    match handler.phase {
        PhaseView::Initiating { session, remote } => event is Done && fetch_begin(
            session,
            firmware_path(handler.path, remote),
        ).1 matches FetchStepView::Finished { result: Err(_), .. },
        PhaseView::Downloading { fetch, .. } => fetch_step(fetch, event_reply(event)).1
            matches FetchStepView::Finished { result: Err(_), .. },
        _ => false,
    }
}

/// Whether the download failed at any of the first `k` events.
pub open spec fn download_failed(start: OtaView, events: Seq<EventView>, k: nat) -> bool
    decreases k,
{
    if k == 0 {
        false
    } else {
        let before = (k - 1) as nat;
        download_failed(start, events, before) || download_fails(
            handler_after(start, events, before),
            events[before as int],
        )
    }
}

/// Whether the cycle that `start` is in is still running after each of the
/// events `1..k`.
pub open spec fn cycle_runs(start: OtaView, events: Seq<EventView>, k: nat) -> bool {
    forall|i: nat| 0 < i < k ==> !(#[trigger] handler_after(start, events, i).phase is Idle)
}

/// An update transaction ends exactly once. From the moment the pipeline
/// is opened until the cycle ends, the handler asks for one abort and no
/// commit if the download failed at any step, and for one commit and no
/// abort if it did not; while the download runs it has asked for neither.
/// When the cycle has ended the transaction is committed or aborted.
pub proof fn lemma_transaction_ends_once(start: OtaView, events: Seq<EventView>, k: nat)
    requires
        start.phase is Initiating,
        0 < k <= events.len(),
        events[0] is Done,
        cycle_runs(start, events, k),
    ensures
        match handler_after(start, events, k).phase {
            PhaseView::Downloading { .. } => {
                &&& !download_failed(start, events, k)
                &&& aborts(start, events, k) == 0
                &&& commits(start, events, k) == 0
            },
            PhaseView::Aborting { .. } => {
                &&& download_failed(start, events, k)
                &&& aborts(start, events, k) == 1
                &&& commits(start, events, k) == 0
            },
            PhaseView::Committing { .. } => {
                &&& !download_failed(start, events, k)
                &&& aborts(start, events, k) == 0
                &&& commits(start, events, k) == 1
            },
            PhaseView::Idle => {
                &&& handler_after(start, events, k).transaction matches Some(transaction)
                    && transaction.is_terminal()
                &&& download_failed(start, events, k) ==> aborts(start, events, k) == 1
                    && commits(start, events, k) == 0
                &&& !download_failed(start, events, k) ==> aborts(start, events, k) == 0
                    && commits(start, events, k) == 1
            },
            _ => false,
        },
    decreases k,
{
    if k == 1 {
        assert(aborts(start, events, 0) == 0);
        assert(commits(start, events, 0) == 0);
        assert(!download_failed(start, events, 0));
    } else {
        lemma_transaction_ends_once(start, events, (k - 1) as nat);
    }
}

} // verus!
