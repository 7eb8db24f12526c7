use relay_controller::error::Error;
use relay_controller::handshake::{
    attach_request, attach_to_filesystem, auth_request, perform_authentication,
    perform_version_negotiation, version_request, Handshake, HandshakePhase, HandshakeStep,
    Session, ATTACH_TAG, AUTH_TAG,
};
use relay_controller::message::{
    next_tag, Failure, Reply, Request, RequestKind, Response, TaggedRequest, AUTH_FID,
    FIRST_TAG, LAST_TAG, NO_FID, NO_TAG, PROPOSED_MSIZE, ROOT_FID,
};

fn rversion(msize: u32, version: &str) -> Reply {
    Reply::Message(Response::Version { msize, version: version.to_string() })
}

fn rerror(ename: &str) -> Reply {
    Reply::Message(Response::Error { ename: ename.to_string() })
}

#[test]
fn version_request_uses_the_reserved_tag() {
    assert_eq!(
        version_request(),
        TaggedRequest {
            tag: 0xFFFF,
            request: Request::Version { msize: 8192, version: "9P2000".to_string() },
        }
    );
    assert_eq!(NO_TAG, 0xFFFF);
    assert_eq!(PROPOSED_MSIZE, 8192);
}

#[test]
fn auth_request_is_anonymous() {
    assert_eq!(
        auth_request(),
        TaggedRequest {
            tag: 1,
            request: Request::Auth {
                afid: 1,
                uname: "nobody".to_string(),
                aname: String::new(),
            },
        }
    );
    assert_eq!(AUTH_FID, 1);
    assert_eq!(AUTH_TAG, 1);
}

#[test]
fn attach_request_binds_the_root_without_auth() {
    assert_eq!(
        attach_request(),
        TaggedRequest {
            tag: 2,
            request: Request::Attach {
                fid: 2,
                afid: None,
                uname: "nobody".to_string(),
                aname: String::new(),
            },
        }
    );
    assert_eq!(ROOT_FID, 2);
    assert_eq!(ATTACH_TAG, 2);
}

#[test]
fn negotiated_size_is_the_smaller_proposal() {
    assert_eq!(perform_version_negotiation(rversion(4096, "9P2000")), Ok(4096));
    assert_eq!(perform_version_negotiation(rversion(8192, "9P2000")), Ok(8192));
    assert_eq!(perform_version_negotiation(rversion(65536, "9P2000")), Ok(8192));
    assert_eq!(perform_version_negotiation(rversion(0, "9P2000")), Ok(0));
    assert_eq!(perform_version_negotiation(rversion(u32::MAX, "9P2000")), Ok(8192));
}

#[test]
fn other_protocol_version_is_a_mismatch() {
    assert_eq!(
        perform_version_negotiation(rversion(8192, "9P2000.L")),
        Err(Error::VersionMismatch { offered: "9P2000.L".to_string() })
    );
    assert_eq!(
        perform_version_negotiation(rversion(8192, "unknown")),
        Err(Error::VersionMismatch { offered: "unknown".to_string() })
    );
    assert_eq!(
        perform_version_negotiation(rversion(8192, "")),
        Err(Error::VersionMismatch { offered: String::new() })
    );
}

#[test]
fn refused_version_carries_the_reason() {
    assert_eq!(
        perform_version_negotiation(rerror("go away")),
        Err(Error::Rejected { request: RequestKind::Version, reason: "go away".to_string() })
    );
}

#[test]
fn other_reply_to_version_is_unexpected() {
    assert_eq!(
        perform_version_negotiation(Reply::Message(Response::Attach)),
        Err(Error::UnexpectedResponse(RequestKind::Version))
    );
}

#[test]
fn failed_version_exchange_is_a_transport_error() {
    assert_eq!(perform_version_negotiation(Reply::Failed(Failure::Io)), Err(Error::Io));
    assert_eq!(perform_version_negotiation(Reply::Failed(Failure::Decode)), Err(Error::Decode));
    assert_eq!(
        perform_version_negotiation(Reply::Failed(Failure::Closed)),
        Err(Error::ConnectionClosed)
    );
}

#[test]
fn refusal_of_auth_is_success() {
    assert_eq!(perform_authentication(rerror("authentication not required")), Ok(()));
}

#[test]
fn granted_auth_is_unsupported() {
    assert_eq!(
        perform_authentication(Reply::Message(Response::Auth)),
        Err(Error::AuthenticationRequired)
    );
}

#[test]
fn other_reply_to_auth_is_unexpected() {
    assert_eq!(
        perform_authentication(Reply::Message(Response::Attach)),
        Err(Error::UnexpectedResponse(RequestKind::Auth))
    );
    assert_eq!(
        perform_authentication(Reply::Failed(Failure::Closed)),
        Err(Error::ConnectionClosed)
    );
}

#[test]
fn attach_yields_the_root_handle() {
    assert_eq!(attach_to_filesystem(Reply::Message(Response::Attach)), Ok(2));
}

#[test]
fn refused_attach_carries_the_reason() {
    assert_eq!(
        attach_to_filesystem(rerror("permission denied")),
        Err(Error::Rejected {
            request: RequestKind::Attach,
            reason: "permission denied".to_string()
        })
    );
}

#[test]
fn other_reply_to_attach_is_unexpected() {
    assert_eq!(
        attach_to_filesystem(Reply::Message(Response::Auth)),
        Err(Error::UnexpectedResponse(RequestKind::Attach))
    );
    assert_eq!(attach_to_filesystem(Reply::Failed(Failure::Io)), Err(Error::Io));
}

#[test]
fn handshake_runs_version_auth_attach() {
    let (mut handshake, first) = Handshake::begin();
    assert_eq!(first, version_request());
    assert_eq!(handshake.phase, HandshakePhase::Version);

    let step = handshake.perform_handshake(rversion(4096, "9P2000"));
    assert_eq!(step, HandshakeStep::Send(auth_request()));
    assert_eq!(handshake.phase, HandshakePhase::Auth { msize: 4096 });

    let step = handshake.perform_handshake(rerror("no auth"));
    assert_eq!(step, HandshakeStep::Send(attach_request()));
    assert_eq!(handshake.phase, HandshakePhase::Attach { msize: 4096 });

    let step = handshake.perform_handshake(Reply::Message(Response::Attach));
    assert_eq!(
        step,
        HandshakeStep::Established(Session { msize: 4096, root: 2, next_fid: 3, next_tag: 3 })
    );
    assert_eq!(handshake.phase, HandshakePhase::Done);
}

#[test]
fn version_mismatch_stops_the_handshake() {
    let (mut handshake, _) = Handshake::begin();
    let step = handshake.perform_handshake(rversion(8192, "9P1999"));
    assert_eq!(
        step,
        HandshakeStep::Failed(Error::VersionMismatch { offered: "9P1999".to_string() })
    );
    assert_eq!(handshake.phase, HandshakePhase::Done);
    // nothing further is attempted
    let step = handshake.perform_handshake(rerror("no auth"));
    assert_eq!(step, HandshakeStep::Failed(Error::UnexpectedEvent));
    assert_eq!(handshake.phase, HandshakePhase::Done);
}

#[test]
fn failed_attach_yields_no_session() {
    let (mut handshake, _) = Handshake::begin();
    handshake.perform_handshake(rversion(8192, "9P2000"));
    handshake.perform_handshake(rerror("no auth"));
    let step = handshake.perform_handshake(rerror("no such tree"));
    assert_eq!(
        step,
        HandshakeStep::Failed(Error::Rejected {
            request: RequestKind::Attach,
            reason: "no such tree".to_string()
        })
    );
    assert_eq!(handshake.phase, HandshakePhase::Done);
}

#[test]
fn auth_handle_fails_the_handshake() {
    let (mut handshake, _) = Handshake::begin();
    handshake.perform_handshake(rversion(8192, "9P2000"));
    let step = handshake.perform_handshake(Reply::Message(Response::Auth));
    assert_eq!(step, HandshakeStep::Failed(Error::AuthenticationRequired));
    assert_eq!(handshake.phase, HandshakePhase::Done);
}

#[test]
fn handles_are_allocated_in_order_and_never_collide() {
    let mut session = Session::established(8192);
    assert_eq!(session, Session { msize: 8192, root: 2, next_fid: 3, next_tag: 3 });
    assert_eq!(session.allocate(), Some(3));
    assert_eq!(session.allocate(), Some(4));
    assert_eq!(session.next_fid, 5);
    assert_eq!(session.root, 2);
    assert_eq!(session.msize, 8192);
}

#[test]
fn the_reserved_handle_is_never_allocated() {
    let mut session = Session { msize: 8192, root: 2, next_fid: NO_FID - 1, next_tag: 3 };
    assert_eq!(session.allocate(), Some(NO_FID - 1));
    assert_eq!(session.allocate(), None);
    assert_eq!(session.allocate(), None);
    assert_eq!(session.next_fid, NO_FID);
}

#[test]
fn allocating_a_handle_spends_no_tag() {
    let mut session = Session::established(8192);
    session.allocate();
    assert_eq!(session.next_tag, 3);
}

#[test]
fn tags_are_given_out_in_increasing_order() {
    let mut session = Session::established(8192);
    assert_eq!(session.take_tag(), 3);
    assert_eq!(session.take_tag(), 4);
    assert_eq!(session.take_tag(), 5);
    assert_eq!(session.next_tag, 6);
    assert_eq!(session.next_fid, 3);
}

#[test]
fn the_reserved_tag_is_never_given_out() {
    assert_eq!(FIRST_TAG, 1);
    assert_eq!(LAST_TAG, 0xFFFE);
    assert_eq!(next_tag(1), 2);
    assert_eq!(next_tag(0xFFFD), 0xFFFE);
    assert_eq!(next_tag(0xFFFE), 1);
    assert_eq!(next_tag(0xFFFF), 1);
    assert_eq!(next_tag(0), 1);
    let mut session = Session { msize: 8192, root: 2, next_fid: 3, next_tag: 0xFFFE };
    assert_eq!(session.take_tag(), 0xFFFE);
    assert_eq!(session.take_tag(), 1);
    assert_ne!(session.next_tag, NO_TAG);
}
