use relay_controller::error::Error;
use relay_controller::fetch::{Fetch, FetchStep};
use relay_controller::handshake::Session;
use relay_controller::message::{
    Failure, OpenMode, Reply, Request, RequestKind, Response, TaggedRequest,
};
use relay_controller::ota::{
    Action, CycleEnd, Event, OtaHandler, Phase, UpdateTransaction, INITIAL_DELAY_SECS,
    POLL_INTERVAL_SECS,
};
use relay_controller::reader::ReleaseWarning;

/// A file server that answers from memory and records what it was asked.
struct Server {
    files: Vec<(Vec<String>, Vec<u8>)>,
    dirs: Vec<Vec<String>>,
    bound: Vec<(u32, usize, bool)>,
    chunk: usize,
    fail_read_at: Option<u64>,
    refuse_clunk: bool,
    log: Vec<Request>,
    tags: Vec<u16>,
}

fn server() -> Server {
    Server {
        files: Vec::new(),
        dirs: Vec::new(),
        bound: Vec::new(),
        chunk: usize::MAX,
        fail_read_at: None,
        refuse_clunk: false,
        log: Vec::new(),
        tags: Vec::new(),
    }
}

fn parts(path: &str) -> Vec<String> {
    path.split('/').filter(|s| !s.is_empty()).map(|s| s.to_string()).collect()
}

fn with_file(mut s: Server, path: &str, data: &[u8]) -> Server {
    s.files.push((parts(path), data.to_vec()));
    s
}

fn with_dir(mut s: Server, path: &str) -> Server {
    s.dirs.push(parts(path));
    s
}

fn answer(s: &mut Server, request: &TaggedRequest) -> Response {
    s.log.push(request.request.clone());
    s.tags.push(request.tag);
    match &request.request {
        Request::Version { msize, version } => {
            Response::Version { msize: (*msize).min(8192), version: version.clone() }
        }
        Request::Auth { .. } => {
            Response::Error { ename: "authentication not required".to_string() }
        }
        Request::Attach { .. } => Response::Attach,
        Request::Walk { newfid, wnames, .. } => {
            if let Some(i) = s.files.iter().position(|(p, _)| p == wnames) {
                s.bound.push((*newfid, i, false));
                return Response::Walk { resolved: wnames.len() };
            }
            if let Some(i) = s.dirs.iter().position(|p| p == wnames) {
                s.bound.push((*newfid, i, true));
                return Response::Walk { resolved: wnames.len() };
            }
            let mut best = 0;
            for (p, _) in s.files.iter() {
                let mut n = 0;
                while n < p.len() && n < wnames.len() && p[n] == wnames[n] {
                    n += 1;
                }
                if n > best {
                    best = n;
                }
            }
            if best == 0 {
                Response::Error { ename: "file not found".to_string() }
            } else {
                Response::Walk { resolved: best.min(wnames.len() - 1) }
            }
        }
        Request::Open { fid, .. } => match s.bound.iter().find(|b| b.0 == *fid) {
            Some(b) => Response::Open { directory: b.2 },
            None => Response::Error { ename: "unknown fid".to_string() },
        },
        Request::Read { fid, offset, count } => {
            if let Some(at) = s.fail_read_at {
                if *offset >= at {
                    return Response::Error { ename: "i/o error".to_string() };
                }
            }
            match s.bound.iter().find(|b| b.0 == *fid) {
                Some(b) => {
                    let data = &s.files[b.1].1;
                    let start = (*offset as usize).min(data.len());
                    let mut len = (data.len() - start).min(*count as usize).min(s.chunk);
                    if let Some(at) = s.fail_read_at {
                        len = len.min((at - *offset) as usize);
                    }
                    Response::Read { data: data[start..start + len].to_vec() }
                }
                None => Response::Error { ename: "unknown fid".to_string() },
            }
        }
        Request::Clunk { fid } => {
            if s.refuse_clunk {
                return Response::Error { ename: "clunk refused".to_string() };
            }
            s.bound.retain(|b| b.0 != *fid);
            Response::Clunk
        }
    }
}

fn count_kind(log: &[Request], kind: RequestKind) -> usize {
    log.iter()
        .filter(|r| match (r, kind) {
            (Request::Version { .. }, RequestKind::Version) => true,
            (Request::Auth { .. }, RequestKind::Auth) => true,
            (Request::Attach { .. }, RequestKind::Attach) => true,
            (Request::Walk { .. }, RequestKind::Walk) => true,
            (Request::Open { .. }, RequestKind::Open) => true,
            (Request::Read { .. }, RequestKind::Read) => true,
            (Request::Clunk { .. }, RequestKind::Clunk) => true,
            _ => false,
        })
        .count()
}

/// Runs a fetch against the server; the sink refuses bytes once it holds
/// `sink_limit` of them.
fn fetch(
    s: &mut Server,
    session: &mut Session,
    path: &str,
    sink: &mut Vec<u8>,
    sink_limit: usize,
) -> (Result<(), Error>, Option<ReleaseWarning>) {
    let (mut fetch, mut step) = Fetch::begin(*session, path);
    for _ in 0..10_000 {
        let reply = match step {
            FetchStep::Send(request) => Reply::Message(answer(s, &request)),
            FetchStep::Deliver { data, then } => {
                if sink.len() + data.len() > sink_limit {
                    Reply::Failed(Failure::Write)
                } else {
                    sink.extend_from_slice(&data);
                    Reply::Message(answer(s, &then))
                }
            }
            FetchStep::Finished { result, warning } => {
                *session = fetch.session();
                assert_eq!(fetch, Fetch::Finished { session: *session });
                return (result, warning);
            }
        };
        step = fetch.cat_file(reply);
    }
    panic!("fetch did not finish");
}

fn image(len: usize) -> Vec<u8> {
    (0..len).map(|i| (i * 7 + 3) as u8).collect()
}

#[test]
fn fetch_reads_a_file_to_its_end() {
    let data = image(20_000);
    let mut s = with_file(server(), "/fw/files/1.3.0", &data);
    let mut session = Session::established(8192);
    let mut sink = Vec::new();
    let (result, warning) = fetch(&mut s, &mut session, "/fw/files/1.3.0", &mut sink, usize::MAX);
    assert_eq!(result, Ok(()));
    assert_eq!(warning, None);
    assert_eq!(sink, data);
    assert_eq!(
        s.log,
        vec![
            Request::Walk { fid: 2, newfid: 3, wnames: parts("fw/files/1.3.0") },
            Request::Open { fid: 3, mode: OpenMode::Read },
            Request::Read { fid: 3, offset: 0, count: 8092 },
            Request::Read { fid: 3, offset: 8092, count: 8092 },
            Request::Read { fid: 3, offset: 16184, count: 8092 },
            Request::Read { fid: 3, offset: 20000, count: 8092 },
            Request::Clunk { fid: 3 },
        ]
    );
    assert_eq!(session.next_fid, 4);
    // every request takes the next tag of the session
    assert_eq!(s.tags, vec![3, 4, 5, 6, 7, 8, 9]);
    assert_eq!(session.next_tag, 10);
}

#[test]
fn fetch_follows_short_reads() {
    let data = image(1000);
    let mut s = with_file(server(), "/f", &data);
    s.chunk = 7;
    let mut session = Session::established(8192);
    let mut sink = Vec::new();
    let (result, _) = fetch(&mut s, &mut session, "/f", &mut sink, usize::MAX);
    assert_eq!(result, Ok(()));
    assert_eq!(sink, data);
    let offsets: Vec<u64> = s
        .log
        .iter()
        .filter_map(|r| match r {
            Request::Read { offset, .. } => Some(*offset),
            _ => None,
        })
        .collect();
    // every offset is the number of bytes returned so far
    let mut expected = Vec::new();
    let mut at = 0u64;
    while at < 1000 {
        expected.push(at);
        at += 7.min(1000 - at);
    }
    expected.push(1000);
    assert_eq!(offsets, expected);
    assert_eq!(count_kind(&s.log, RequestKind::Clunk), 1);
}

#[test]
fn fetch_of_an_empty_file_delivers_nothing() {
    let mut s = with_file(server(), "/empty", b"");
    let mut session = Session::established(8192);
    let mut sink = Vec::new();
    let (result, warning) = fetch(&mut s, &mut session, "/empty", &mut sink, usize::MAX);
    assert_eq!(result, Ok(()));
    assert_eq!(warning, None);
    assert!(sink.is_empty());
    assert_eq!(count_kind(&s.log, RequestKind::Read), 1);
    assert_eq!(count_kind(&s.log, RequestKind::Clunk), 1);
}

#[test]
fn fetch_with_small_msize_reads_default_chunks() {
    let data = image(5000);
    let mut s = with_file(server(), "/f", &data);
    let mut session = Session::established(64);
    let mut sink = Vec::new();
    let (result, _) = fetch(&mut s, &mut session, "/f", &mut sink, usize::MAX);
    assert_eq!(result, Ok(()));
    assert_eq!(sink, data);
    assert_eq!(s.log[2], Request::Read { fid: 3, offset: 0, count: 4096 });
    assert_eq!(s.log[3], Request::Read { fid: 3, offset: 4096, count: 4096 });
}

#[test]
fn fetch_of_the_root_is_refused_without_a_request() {
    let mut s = with_file(server(), "/f", b"x");
    let mut session = Session::established(8192);
    let mut sink = Vec::new();
    for path in ["", "/", "//"] {
        let (result, warning) = fetch(&mut s, &mut session, path, &mut sink, usize::MAX);
        assert_eq!(result, Err(Error::IsDirectory));
        assert_eq!(warning, None);
    }
    assert!(s.log.is_empty());
    assert_eq!(session, Session::established(8192));
}

#[test]
fn fetch_of_a_missing_file_is_not_found() {
    let mut s = with_file(server(), "/fw/files/1.2.0", b"old");
    let mut session = Session::established(8192);
    let mut sink = Vec::new();
    let (result, warning) = fetch(&mut s, &mut session, "/fw/files/1.3.0", &mut sink, usize::MAX);
    assert_eq!(result, Err(Error::FileNotFound));
    assert_eq!(warning, None);
    assert!(sink.is_empty());
    // nothing was opened, so nothing is released
    assert_eq!(count_kind(&s.log, RequestKind::Walk), 1);
    assert_eq!(count_kind(&s.log, RequestKind::Open), 0);
    assert_eq!(count_kind(&s.log, RequestKind::Clunk), 0);
}

#[test]
fn fetch_of_an_unknown_tree_is_not_found() {
    let mut s = with_file(server(), "/fw/version", b"1");
    let mut session = Session::established(8192);
    let mut sink = Vec::new();
    let (result, _) = fetch(&mut s, &mut session, "/other/version", &mut sink, usize::MAX);
    assert_eq!(result, Err(Error::FileNotFound));
}

#[test]
fn fetch_of_a_directory_is_refused_and_released() {
    let mut s = with_dir(with_file(server(), "/fw/files/1.3.0", b"x"), "/fw/files");
    let mut session = Session::established(8192);
    let mut sink = Vec::new();
    let (result, warning) = fetch(&mut s, &mut session, "/fw/files", &mut sink, usize::MAX);
    assert_eq!(result, Err(Error::IsDirectory));
    assert_eq!(warning, None);
    assert_eq!(count_kind(&s.log, RequestKind::Read), 0);
    assert_eq!(count_kind(&s.log, RequestKind::Clunk), 1);
    assert!(s.bound.is_empty());
}

#[test]
fn read_error_ends_the_fetch_after_one_release() {
    let data = image(20_000);
    let mut s = with_file(server(), "/f", &data);
    s.fail_read_at = Some(8092);
    let mut session = Session::established(8192);
    let mut sink = Vec::new();
    let (result, warning) = fetch(&mut s, &mut session, "/f", &mut sink, usize::MAX);
    assert_eq!(
        result,
        Err(Error::Rejected { request: RequestKind::Read, reason: "i/o error".to_string() })
    );
    assert_eq!(warning, None);
    assert_eq!(sink, data[..8092].to_vec());
    assert_eq!(count_kind(&s.log, RequestKind::Clunk), 1);
    assert_eq!(s.log.last(), Some(&Request::Clunk { fid: 3 }));
}

#[test]
fn sink_failure_ends_the_fetch_after_one_release() {
    let data = image(20_000);
    let mut s = with_file(server(), "/f", &data);
    let mut session = Session::established(8192);
    let mut sink = Vec::new();
    let (result, _) = fetch(&mut s, &mut session, "/f", &mut sink, 10_000);
    assert_eq!(result, Err(Error::UpdateWriteFailed));
    assert_eq!(sink.len(), 8092);
    assert_eq!(count_kind(&s.log, RequestKind::Clunk), 1);
}

#[test]
fn failed_release_does_not_change_the_result() {
    let data = image(100);
    let mut s = with_file(server(), "/f", &data);
    s.refuse_clunk = true;
    let mut session = Session::established(8192);
    let mut sink = Vec::new();
    let (result, warning) = fetch(&mut s, &mut session, "/f", &mut sink, usize::MAX);
    assert_eq!(result, Ok(()));
    assert_eq!(warning, Some(ReleaseWarning::Refused { reason: "clunk refused".to_string() }));
    assert_eq!(sink, data);
}

#[test]
fn transport_failure_during_read_still_attempts_the_release() {
    let session = Session::established(8192);
    let (mut fetch, step) = Fetch::begin(session, "/f");
    assert_eq!(
        step,
        FetchStep::Send(TaggedRequest {
            tag: 3,
            request: Request::Walk { fid: 2, newfid: 3, wnames: parts("f") },
        })
    );
    fetch.cat_file(Reply::Message(Response::Walk { resolved: 1 }));
    fetch.cat_file(Reply::Message(Response::Open { directory: false }));
    let reading = Session { msize: 8192, root: 2, next_fid: 4, next_tag: 6 };
    assert_eq!(fetch, Fetch::Reading { session: reading, fid: 3, count: 8092, offset: 0 });
    let step = fetch.cat_file(Reply::Failed(Failure::Closed));
    assert_eq!(
        step,
        FetchStep::Send(TaggedRequest { tag: 6, request: Request::Clunk { fid: 3 } })
    );
    let releasing = Session { msize: 8192, root: 2, next_fid: 4, next_tag: 7 };
    assert_eq!(
        fetch,
        Fetch::Releasing { session: releasing, fid: 3, result: Err(Error::ConnectionClosed) }
    );
    let step = fetch.cat_file(Reply::Failed(Failure::Closed));
    assert_eq!(
        step,
        FetchStep::Finished {
            result: Err(Error::ConnectionClosed),
            warning: Some(ReleaseWarning::Failed(Failure::Closed)),
        }
    );
    assert_eq!(fetch, Fetch::Finished { session: releasing });
}

#[test]
fn unexpected_replies_are_protocol_errors() {
    let session = Session::established(8192);
    let (mut fetch, _) = Fetch::begin(session, "/f");
    let step = fetch.cat_file(Reply::Message(Response::Attach));
    assert_eq!(
        step,
        FetchStep::Finished {
            result: Err(Error::UnexpectedResponse(RequestKind::Walk)),
            warning: None,
        }
    );

    let (mut fetch, _) = Fetch::begin(session, "/f");
    fetch.cat_file(Reply::Message(Response::Walk { resolved: 1 }));
    let step = fetch.cat_file(Reply::Message(Response::Clunk));
    assert_eq!(
        step,
        FetchStep::Finished {
            result: Err(Error::UnexpectedResponse(RequestKind::Open)),
            warning: None,
        }
    );

    let (mut fetch, _) = Fetch::begin(session, "/f");
    fetch.cat_file(Reply::Message(Response::Walk { resolved: 1 }));
    let step = fetch.cat_file(Reply::Message(Response::Error { ename: "denied".to_string() }));
    assert_eq!(
        step,
        FetchStep::Finished {
            result: Err(Error::Rejected {
                request: RequestKind::Open,
                reason: "denied".to_string()
            }),
            warning: None,
        }
    );
}

#[test]
fn finished_fetch_asks_for_nothing_more() {
    let session = Session::established(8192);
    let (mut fetch, _) = Fetch::begin(session, "/f");
    fetch.cat_file(Reply::Message(Response::Walk { resolved: 1 }));
    fetch.cat_file(Reply::Message(Response::Open { directory: false }));
    fetch.cat_file(Reply::Message(Response::Read { data: Vec::new() }));
    fetch.cat_file(Reply::Message(Response::Clunk));
    let left = fetch.session();
    assert_eq!(fetch, Fetch::Finished { session: left });
    let step = fetch.cat_file(Reply::Message(Response::Read { data: vec![1, 2, 3] }));
    assert_eq!(
        step,
        FetchStep::Finished { result: Err(Error::UnexpectedEvent), warning: None }
    );
    assert_eq!(fetch, Fetch::Finished { session: left });
}

#[test]
fn exhausted_handle_space_refuses_the_fetch() {
    let session = Session { msize: 8192, root: 2, next_fid: u32::MAX, next_tag: 3 };
    let (fetch, step) = Fetch::begin(session, "/f");
    assert_eq!(fetch, Fetch::Finished { session });
    assert_eq!(
        step,
        FetchStep::Finished { result: Err(Error::NoFreeHandle), warning: None }
    );
}

/// The update pipeline of a device, as the tests see it.
struct Pipeline {
    running: Option<String>,
    initiated: usize,
    written: Vec<u8>,
    commits: usize,
    aborts: usize,
    write_limit: usize,
    connects: usize,
}

fn pipeline(running: Option<&str>) -> Pipeline {
    Pipeline {
        running: running.map(|v| v.to_string()),
        initiated: 0,
        written: Vec::new(),
        commits: 0,
        aborts: 0,
        write_limit: usize::MAX,
        connects: 0,
    }
}

/// Runs one cycle: from the timer to the next wait.
fn cycle(handler: &mut OtaHandler, s: &mut Server, p: &mut Pipeline) -> CycleEnd {
    let mut action = handler.run(Event::TimerFired);
    for _ in 0..10_000 {
        let event = match action {
            Action::Wait { seconds, ended } => {
                assert_eq!(seconds, POLL_INTERVAL_SECS);
                assert_eq!(handler.phase, Phase::Idle);
                return ended.expect("a cycle ends with its outcome");
            }
            Action::Connect { addr } => {
                assert_eq!(addr, "nas:4501");
                p.connects += 1;
                Event::Connected
            }
            Action::Send(request) => Event::Message(answer(s, &request)),
            Action::Write { data, then } => {
                assert_eq!(handler.transaction, Some(UpdateTransaction::Initiated));
                if p.written.len() + data.len() > p.write_limit {
                    Event::Failed(Failure::Write)
                } else {
                    p.written.extend_from_slice(&data);
                    Event::Message(answer(s, &then))
                }
            }
            Action::ReadRunningVersion => Event::RunningVersion(p.running.clone()),
            Action::Initiate => {
                p.initiated += 1;
                Event::Done
            }
            Action::Commit => {
                assert_eq!(handler.transaction, Some(UpdateTransaction::Staged));
                p.commits += 1;
                Event::Done
            }
            Action::Abort => {
                p.aborts += 1;
                Event::Done
            }
        };
        action = handler.run(event);
    }
    panic!("cycle did not end");
}

fn handler() -> OtaHandler {
    OtaHandler::new("nas:4501".to_string(), "/esp32/relay-controller".to_string())
}

#[test]
fn handler_starts_idle_with_the_initial_delay() {
    let h = handler();
    assert_eq!(h.phase, Phase::Idle);
    assert_eq!(h.transaction, None);
    assert_eq!(h.start(), Action::Wait { seconds: 30, ended: None });
    assert_eq!(INITIAL_DELAY_SECS, 30);
    assert_eq!(POLL_INTERVAL_SECS, 16);
}

#[test]
fn equal_versions_end_the_cycle_up_to_date() {
    let mut s = with_file(server(), "/esp32/relay-controller/version", b"1.2.0\n");
    let mut p = pipeline(Some("1.2.0"));
    let mut h = handler();
    assert_eq!(cycle(&mut h, &mut s, &mut p), CycleEnd::UpToDate);
    assert_eq!(p.initiated, 0);
    assert!(p.written.is_empty());
    assert_eq!(p.commits, 0);
    assert_eq!(p.aborts, 0);
    assert_eq!(h.transaction, None);
    assert_eq!(p.connects, 1);
    assert_eq!(count_kind(&s.log, RequestKind::Walk), 1);
}

#[test]
fn newer_version_is_downloaded_and_committed() {
    let data = image(50_000);
    let mut s = with_file(
        with_file(server(), "/esp32/relay-controller/version", b"1.3.0\n"),
        "/esp32/relay-controller/files/1.3.0",
        &data,
    );
    let mut p = pipeline(Some("1.2.0"));
    let mut h = handler();
    assert_eq!(
        cycle(&mut h, &mut s, &mut p),
        CycleEnd::Committed { version: "1.3.0".to_string() }
    );
    assert_eq!(p.initiated, 1);
    assert_eq!(p.written, data);
    assert_eq!(p.commits, 1);
    assert_eq!(p.aborts, 0);
    assert_eq!(h.transaction, Some(UpdateTransaction::Committed));
    // one connection and one handshake serve both files
    assert_eq!(p.connects, 1);
    assert_eq!(count_kind(&s.log, RequestKind::Version), 1);
    assert_eq!(count_kind(&s.log, RequestKind::Attach), 1);
    // the two files get distinct handles, each released once
    let walks: Vec<&Request> =
        s.log.iter().filter(|r| matches!(r, Request::Walk { .. })).collect();
    assert_eq!(
        walks,
        vec![
            &Request::Walk { fid: 2, newfid: 3, wnames: parts("esp32/relay-controller/version") },
            &Request::Walk {
                fid: 2,
                newfid: 4,
                wnames: parts("esp32/relay-controller/files/1.3.0")
            },
        ]
    );
    let clunks: Vec<&Request> =
        s.log.iter().filter(|r| matches!(r, Request::Clunk { .. })).collect();
    assert_eq!(clunks, vec![&Request::Clunk { fid: 3 }, &Request::Clunk { fid: 4 }]);
    // the version exchange has the reserved tag, every later request the next one
    assert_eq!(s.tags[0], 0xFFFF);
    let expected: Vec<u16> = (1..s.tags.len() as u16).collect();
    assert_eq!(s.tags[1..].to_vec(), expected);
}

#[test]
fn older_remote_version_is_installed_too() {
    let mut s = with_file(
        with_file(server(), "/esp32/relay-controller/version", b"1.1.0"),
        "/esp32/relay-controller/files/1.1.0",
        b"old image",
    );
    let mut p = pipeline(Some("1.2.0"));
    let mut h = handler();
    assert_eq!(
        cycle(&mut h, &mut s, &mut p),
        CycleEnd::Committed { version: "1.1.0".to_string() }
    );
    assert_eq!(p.written, b"old image".to_vec());
}

#[test]
fn read_failure_mid_stream_aborts_the_transaction() {
    let data = image(50_000);
    let mut s = with_file(
        with_file(server(), "/esp32/relay-controller/version", b"1.3.0\n"),
        "/esp32/relay-controller/files/1.3.0",
        &data,
    );
    s.fail_read_at = Some(16_184);
    let mut p = pipeline(Some("1.2.0"));
    let mut h = handler();
    assert_eq!(
        cycle(&mut h, &mut s, &mut p),
        CycleEnd::Aborted {
            cause: Error::Rejected { request: RequestKind::Read, reason: "i/o error".to_string() },
            clean: true,
        }
    );
    assert_eq!(p.initiated, 1);
    assert_eq!(p.written, data[..16_184].to_vec());
    assert_eq!(p.commits, 0);
    assert_eq!(p.aborts, 1);
    assert_eq!(h.transaction, Some(UpdateTransaction::Aborted));
    assert_eq!(s.log.last(), Some(&Request::Clunk { fid: 4 }));
}

#[test]
fn pipeline_write_failure_aborts_the_transaction() {
    let data = image(50_000);
    let mut s = with_file(
        with_file(server(), "/esp32/relay-controller/version", b"1.3.0\n"),
        "/esp32/relay-controller/files/1.3.0",
        &data,
    );
    let mut p = pipeline(Some("1.2.0"));
    p.write_limit = 20_000;
    let mut h = handler();
    assert_eq!(
        cycle(&mut h, &mut s, &mut p),
        CycleEnd::Aborted { cause: Error::UpdateWriteFailed, clean: true }
    );
    assert_eq!(p.commits, 0);
    assert_eq!(p.aborts, 1);
    assert_eq!(s.log.last(), Some(&Request::Clunk { fid: 4 }));
}

#[test]
fn missing_image_is_reported_as_not_found() {
    let mut s = with_file(
        with_file(server(), "/esp32/relay-controller/version", b"1.3.0\n"),
        "/esp32/relay-controller/files/1.2.0",
        b"old image",
    );
    let mut p = pipeline(Some("1.2.0"));
    let mut h = handler();
    assert_eq!(
        cycle(&mut h, &mut s, &mut p),
        CycleEnd::Aborted { cause: Error::FileNotFound, clean: true }
    );
    assert!(p.written.is_empty());
    assert_eq!(p.commits, 0);
    assert_eq!(p.aborts, 1);
    assert_eq!(h.transaction, Some(UpdateTransaction::Aborted));
    assert_eq!(h.phase, Phase::Idle);
}

#[test]
fn missing_version_marker_ends_the_cycle_early() {
    let mut s = with_file(server(), "/elsewhere/version", b"1.3.0\n");
    let mut p = pipeline(Some("1.2.0"));
    let mut h = handler();
    assert_eq!(cycle(&mut h, &mut s, &mut p), CycleEnd::Failed(Error::FileNotFound));
    assert_eq!(p.initiated, 0);
    assert_eq!(p.aborts, 0);
    assert_eq!(h.transaction, None);
}

#[test]
fn missing_firmware_info_ends_the_cycle_early() {
    let mut s = with_file(server(), "/esp32/relay-controller/version", b"1.3.0\n");
    let mut p = pipeline(None);
    let mut h = handler();
    assert_eq!(cycle(&mut h, &mut s, &mut p), CycleEnd::Failed(Error::FirmwareInfoMissing));
    assert_eq!(p.initiated, 0);
    assert_eq!(h.transaction, None);
}

#[test]
fn connection_failure_ends_the_cycle_early() {
    let mut h = handler();
    assert_eq!(
        h.run(Event::TimerFired),
        Action::Connect { addr: "nas:4501".to_string() }
    );
    assert_eq!(h.phase, Phase::Connecting);
    assert_eq!(
        h.run(Event::Failed(Failure::Io)),
        Action::Wait { seconds: 16, ended: Some(CycleEnd::Failed(Error::Io)) }
    );
    assert_eq!(h.phase, Phase::Idle);
    assert_eq!(h.transaction, None);
}

#[test]
fn handshake_failure_ends_the_cycle_early() {
    let mut h = handler();
    h.run(Event::TimerFired);
    h.run(Event::Connected);
    let action = h.run(Event::Message(Response::Version {
        msize: 8192,
        version: "9P2000.u".to_string(),
    }));
    assert_eq!(
        action,
        Action::Wait {
            seconds: 16,
            ended: Some(CycleEnd::Failed(Error::VersionMismatch {
                offered: "9P2000.u".to_string()
            })),
        }
    );
    assert_eq!(h.phase, Phase::Idle);
}

#[test]
fn failed_initiate_opens_no_transaction() {
    let mut s = with_file(server(), "/esp32/relay-controller/version", b"1.3.0\n");
    let mut h = handler();
    let mut action = h.run(Event::TimerFired);
    loop {
        let event = match action {
            Action::Connect { .. } => Event::Connected,
            Action::Send(request) => Event::Message(answer(&mut s, &request)),
            Action::ReadRunningVersion => Event::RunningVersion(Some("1.2.0".to_string())),
            Action::Initiate => break,
            other => panic!("unexpected action {:?}", other),
        };
        action = h.run(event);
    }
    assert_eq!(h.transaction, None);
    assert_eq!(
        h.run(Event::Failed(Failure::Platform)),
        Action::Wait { seconds: 16, ended: Some(CycleEnd::Failed(Error::Platform)) }
    );
    assert_eq!(h.transaction, None);
    assert_eq!(h.phase, Phase::Idle);
}

#[test]
fn failed_commit_leaves_no_transaction_open() {
    let mut s = with_file(
        with_file(server(), "/esp32/relay-controller/version", b"2\n"),
        "/esp32/relay-controller/files/2",
        b"image",
    );
    let mut h = handler();
    let mut action = h.run(Event::TimerFired);
    loop {
        let event = match action {
            Action::Connect { .. } => Event::Connected,
            Action::Send(request) => Event::Message(answer(&mut s, &request)),
            Action::Write { then, .. } => Event::Message(answer(&mut s, &then)),
            Action::ReadRunningVersion => Event::RunningVersion(Some("1".to_string())),
            Action::Initiate => Event::Done,
            Action::Commit => break,
            other => panic!("unexpected action {:?}", other),
        };
        action = h.run(event);
    }
    assert_eq!(h.transaction, Some(UpdateTransaction::Staged));
    assert_eq!(
        h.run(Event::Failed(Failure::Platform)),
        Action::Wait { seconds: 16, ended: Some(CycleEnd::Failed(Error::Platform)) }
    );
    assert_eq!(h.transaction, Some(UpdateTransaction::Aborted));
    assert_eq!(h.phase, Phase::Idle);
}

#[test]
fn unconfirmed_abort_still_ends_the_transaction() {
    let mut s = with_file(server(), "/esp32/relay-controller/version", b"2\n");
    let mut h = handler();
    let mut action = h.run(Event::TimerFired);
    loop {
        let event = match action {
            Action::Connect { .. } => Event::Connected,
            Action::Send(request) => Event::Message(answer(&mut s, &request)),
            Action::ReadRunningVersion => Event::RunningVersion(Some("1".to_string())),
            Action::Initiate => Event::Done,
            Action::Abort => break,
            other => panic!("unexpected action {:?}", other),
        };
        action = h.run(event);
    }
    assert_eq!(
        h.run(Event::Failed(Failure::Platform)),
        Action::Wait {
            seconds: 16,
            ended: Some(CycleEnd::Aborted { cause: Error::FileNotFound, clean: false }),
        }
    );
    assert_eq!(h.transaction, Some(UpdateTransaction::Aborted));
}

#[test]
fn every_cycle_starts_a_fresh_session() {
    let mut s = with_file(server(), "/esp32/relay-controller/version", b"1.2.0\n");
    let mut p = pipeline(Some("1.2.0"));
    let mut h = handler();
    assert_eq!(cycle(&mut h, &mut s, &mut p), CycleEnd::UpToDate);
    assert_eq!(cycle(&mut h, &mut s, &mut p), CycleEnd::UpToDate);
    assert_eq!(p.connects, 2);
    assert_eq!(count_kind(&s.log, RequestKind::Version), 2);
    let walks: Vec<u32> = s
        .log
        .iter()
        .filter_map(|r| match r {
            Request::Walk { newfid, .. } => Some(*newfid),
            _ => None,
        })
        .collect();
    assert_eq!(walks, vec![3, 3]);
    // and its tags start over
    let half = s.tags.len() / 2;
    assert_eq!(s.tags[..half], s.tags[half..]);
}

#[test]
fn a_cycle_after_an_update_starts_without_a_transaction() {
    let mut s = with_file(
        with_file(server(), "/esp32/relay-controller/version", b"1.3.0\n"),
        "/esp32/relay-controller/files/1.3.0",
        b"image",
    );
    let mut p = pipeline(Some("1.2.0"));
    let mut h = handler();
    cycle(&mut h, &mut s, &mut p);
    assert_eq!(h.transaction, Some(UpdateTransaction::Committed));
    h.run(Event::TimerFired);
    assert_eq!(h.transaction, None);
}

#[test]
fn event_out_of_turn_fails_what_was_asked() {
    let mut h = handler();
    assert_eq!(
        h.run(Event::Connected),
        Action::Wait { seconds: 16, ended: Some(CycleEnd::Failed(Error::UnexpectedEvent)) }
    );
    h.run(Event::TimerFired);
    assert_eq!(
        h.run(Event::Done),
        Action::Wait { seconds: 16, ended: Some(CycleEnd::Failed(Error::UnexpectedEvent)) }
    );
    h.run(Event::TimerFired);
    h.run(Event::Connected);
    assert_eq!(
        h.run(Event::TimerFired),
        Action::Wait { seconds: 16, ended: Some(CycleEnd::Failed(Error::UnexpectedEvent)) }
    );
}

#[test]
fn release_warning_is_kept_for_the_driver() {
    let mut s = with_file(server(), "/esp32/relay-controller/version", b"1.2.0\n");
    s.refuse_clunk = true;
    let mut h = handler();
    let mut action = h.run(Event::TimerFired);
    loop {
        let event = match action {
            Action::Connect { .. } => Event::Connected,
            Action::Send(request) => Event::Message(answer(&mut s, &request)),
            Action::ReadRunningVersion => break,
            other => panic!("unexpected action {:?}", other),
        };
        action = h.run(event);
    }
    assert_eq!(
        h.warning,
        Some(ReleaseWarning::Refused { reason: "clunk refused".to_string() })
    );
    h.run(Event::RunningVersion(Some("1.2.0".to_string())));
    assert_eq!(h.warning, None);
}

#[test]
fn check_update_opens_the_pipeline_only_for_a_different_version() {
    let session = Session::established(8192);
    let mut h = handler();
    let action = h.check_update(
        session,
        "1.2.0".to_string(),
        Event::RunningVersion(Some("1.2.0".to_string())),
    );
    assert_eq!(action, Action::Wait { seconds: 16, ended: Some(CycleEnd::UpToDate) });
    assert_eq!(h.phase, Phase::Idle);

    let action = h.check_update(
        session,
        "1.3.0".to_string(),
        Event::RunningVersion(Some("1.2.0".to_string())),
    );
    assert_eq!(action, Action::Initiate);
    assert_eq!(h.phase, Phase::Initiating { session, remote: "1.3.0".to_string() });
    assert_eq!(h.transaction, None);
}

#[test]
fn check_update_fails_without_a_running_version() {
    let session = Session::established(8192);
    let mut h = handler();
    assert_eq!(
        h.check_update(session, "1.3.0".to_string(), Event::RunningVersion(None)),
        Action::Wait { seconds: 16, ended: Some(CycleEnd::Failed(Error::FirmwareInfoMissing)) }
    );
    assert_eq!(
        h.check_update(session, "1.3.0".to_string(), Event::Failed(Failure::Platform)),
        Action::Wait { seconds: 16, ended: Some(CycleEnd::Failed(Error::Platform)) }
    );
    assert_eq!(
        h.check_update(session, "1.3.0".to_string(), Event::Done),
        Action::Wait { seconds: 16, ended: Some(CycleEnd::Failed(Error::UnexpectedEvent)) }
    );
}

#[test]
fn download_update_walks_to_the_image_of_the_version() {
    let session = Session { msize: 8192, root: 2, next_fid: 4, next_tag: 9 };
    let mut h = handler();
    let action = h.download_update(session, "1.3.0".to_string());
    assert_eq!(
        action,
        Action::Send(TaggedRequest {
            tag: 9,
            request: Request::Walk {
                fid: 2,
                newfid: 4,
                wnames: parts("esp32/relay-controller/files/1.3.0"),
            },
        })
    );
    assert_eq!(h.transaction, Some(UpdateTransaction::Initiated));
    assert_eq!(
        h.phase,
        Phase::Downloading {
            fetch: Fetch::Walking {
                session: Session { msize: 8192, root: 2, next_fid: 5, next_tag: 10 },
                fid: 4,
                count: 8092,
                requested: 4,
            },
            remote: "1.3.0".to_string(),
        }
    );
}

#[test]
fn download_update_aborts_when_no_handle_is_left() {
    let session = Session { msize: 8192, root: 2, next_fid: u32::MAX, next_tag: 9 };
    let mut h = handler();
    assert_eq!(h.download_update(session, "1.3.0".to_string()), Action::Abort);
    assert_eq!(h.phase, Phase::Aborting { cause: Error::NoFreeHandle });
    assert_eq!(h.transaction, Some(UpdateTransaction::Initiated));
}

#[test]
fn perform_update_commits_a_complete_image_and_aborts_a_failed_one() {
    let session = Session::established(8192);
    let mut h = handler();
    let action = h.perform_update(
        Fetch::Finished { session },
        "1.3.0".to_string(),
        FetchStep::Finished { result: Ok(()), warning: None },
    );
    assert_eq!(action, Action::Commit);
    assert_eq!(h.phase, Phase::Committing { remote: "1.3.0".to_string() });
    assert_eq!(h.transaction, Some(UpdateTransaction::Staged));

    let action = h.perform_update(
        Fetch::Finished { session },
        "1.3.0".to_string(),
        FetchStep::Finished { result: Err(Error::Io), warning: None },
    );
    assert_eq!(action, Action::Abort);
    assert_eq!(h.phase, Phase::Aborting { cause: Error::Io });
    assert_eq!(h.transaction, Some(UpdateTransaction::Initiated));
}

#[test]
fn perform_update_passes_image_bytes_to_the_pipeline() {
    let session = Session::established(8192);
    let mut h = handler();
    let then = TaggedRequest { tag: 7, request: Request::Read { fid: 4, offset: 3, count: 8092 } };
    let action = h.perform_update(
        Fetch::Reading { session, fid: 4, count: 8092, offset: 3 },
        "1.3.0".to_string(),
        FetchStep::Deliver { data: vec![1, 2, 3], then: then.clone() },
    );
    assert_eq!(action, Action::Write { data: vec![1, 2, 3], then });
    assert_eq!(h.transaction, Some(UpdateTransaction::Initiated));
}
