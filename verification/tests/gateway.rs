use rdpkit::gateway::auth::Identity;
use rdpkit::gateway::handshake::{
    on_ws_message, step, target_address, HandshakeAction, HandshakeEvent, HandshakeFailure, HandshakeState,
    ReadDecision, ReadFailure, WsMessageKind,
};
use rdpkit::gateway::policy::{AuthzDecision, GatewayError, GatewayPolicy, TargetHost};
use rdpkit::gateway::static_policy::{parse_host_pattern, HostPattern, RawRule, StaticFilePolicy};
use rdpkit::gateway::ws_stream::{ws_read_step, WsReadBuffer, WsReadStep};

fn rule(principal: &str, hosts: &[&str]) -> RawRule {
    RawRule { principal: principal.to_owned(), hosts: hosts.iter().map(|h| (*h).to_owned()).collect() }
}

fn make_policy() -> StaticFilePolicy {
    StaticFilePolicy::from_raw_rules(vec![
        rule("admin", &["10.0.0.5:3389", "192.168.1."]),
        rule("guest", &["10.0.0.5:3389"]),
        rule("*", &["10.0.0.99:3389"]),
    ])
}

fn mk_identity(principal: &str) -> Identity {
    Identity { principal: principal.to_owned(), claims: Default::default() }
}

fn mk_target(host: &str, port: u16) -> TargetHost {
    TargetHost { host: host.to_owned(), port }
}

fn authorize(policy: &StaticFilePolicy, id: &Identity, tgt: &TargetHost) -> AuthzDecision {
    policy.authorize(id, tgt).expect("authorize returned an error")
}

#[test]
fn allow_exact_principal_and_host() {
    let p = make_policy();
    assert_eq!(authorize(&p, &mk_identity("admin"), &mk_target("10.0.0.5", 3389)), AuthzDecision::Allow);
}

#[test]
fn allow_prefix_match() {
    let p = make_policy();
    assert_eq!(authorize(&p, &mk_identity("admin"), &mk_target("192.168.1.42", 3389)), AuthzDecision::Allow);
    assert_eq!(authorize(&p, &mk_identity("admin"), &mk_target("192.168.1.42", 5000)), AuthzDecision::Allow);
}

#[test]
fn allow_wildcard_principal() {
    let p = make_policy();
    assert_eq!(authorize(&p, &mk_identity("anyone"), &mk_target("10.0.0.99", 3389)), AuthzDecision::Allow);
    assert_eq!(authorize(&p, &mk_identity("guest"), &mk_target("10.0.0.99", 3389)), AuthzDecision::Allow);
}

#[test]
fn deny_no_matching_rule() {
    let p = make_policy();
    assert_eq!(authorize(&p, &mk_identity("admin"), &mk_target("10.0.0.7", 3389)), AuthzDecision::Deny);
}

#[test]
fn deny_wrong_principal() {
    let p = make_policy();
    assert_eq!(authorize(&p, &mk_identity("guest"), &mk_target("192.168.1.42", 3389)), AuthzDecision::Deny);
}

#[test]
fn deny_wildcard_wrong_host() {
    let p = make_policy();
    assert_eq!(authorize(&p, &mk_identity("anyone"), &mk_target("10.0.0.5", 3389)), AuthzDecision::Deny);
}

#[test]
fn deny_wrong_port() {
    let p = make_policy();
    assert_eq!(authorize(&p, &mk_identity("admin"), &mk_target("10.0.0.5", 3390)), AuthzDecision::Deny);
}

#[test]
fn bare_hostname_matches_via_prefix() {
    let p = StaticFilePolicy::from_raw_rules(vec![rule("svc", &["myhost.internal"])]);
    let id = mk_identity("svc");
    assert_eq!(authorize(&p, &id, &mk_target("myhost.internal", 3389)), AuthzDecision::Allow);
    assert_eq!(authorize(&p, &id, &mk_target("myhost.internal", 3390)), AuthzDecision::Allow);
    assert_eq!(authorize(&p, &id, &mk_target("other.host", 3389)), AuthzDecision::Deny);
}

#[test]
fn empty_policy_denies_everything() {
    let p = StaticFilePolicy::from_raw_rules(Vec::new());
    assert_eq!(authorize(&p, &mk_identity("admin"), &mk_target("10.0.0.1", 3389)), AuthzDecision::Deny);
}

#[test]
fn evaluate_matches_authorize() {
    let p = make_policy();
    assert_eq!(p.evaluate("admin", "10.0.0.5", 3389), AuthzDecision::Allow);
    assert_eq!(p.evaluate("admin", "10.0.0.5", 1), AuthzDecision::Deny);
}

#[test]
fn target_host_from_destination() {
    let t = TargetHost::from_destination("rdp-server.corp:3389").unwrap();
    assert_eq!(t.host, "rdp-server.corp");
    assert_eq!(t.port, 3389);
    let t = TargetHost::from_destination("[::1]:+443").unwrap();
    assert_eq!((t.host.as_str(), t.port), ("[::1]", 443));
    assert!(TargetHost::from_destination("no-port").is_none());
    assert!(TargetHost::from_destination("host:").is_none());
    assert!(TargetHost::from_destination("host:65536").is_none());
    assert!(TargetHost::from_destination("host:-1").is_none());
    assert_eq!(TargetHost::from_destination("host:00065535").unwrap().port, 65535);
}

#[test]
fn host_patterns_parse_by_port_suffix() {
    assert!(matches!(parse_host_pattern("10.0.0.5:3389".to_owned()), HostPattern::Exact { ref host, port: 3389 } if host == "10.0.0.5"));
    assert!(matches!(parse_host_pattern("192.168.1.".to_owned()), HostPattern::Prefix(ref p) if p == "192.168.1."));
    assert!(matches!(parse_host_pattern("host:http".to_owned()), HostPattern::Prefix(ref p) if p == "host:http"));
    let exact = parse_host_pattern("h:1".to_owned());
    assert!(exact.matches("h", 1));
    assert!(!exact.matches("h", 10));
    let prefix = parse_host_pattern("h:1x".to_owned());
    assert!(!prefix.matches("h", 1));
    assert!(parse_host_pattern("h".to_owned()).matches("h", 1));
}

#[test]
fn ws_messages_before_request() {
    assert_eq!(on_ws_message(None), ReadDecision::Fail(ReadFailure::StreamClosed));
    assert_eq!(on_ws_message(Some(Err(()))), ReadDecision::Fail(ReadFailure::ReceiveError));
    assert_eq!(on_ws_message(Some(Ok(WsMessageKind::Binary))), ReadDecision::Decode);
    assert_eq!(on_ws_message(Some(Ok(WsMessageKind::Ping))), ReadDecision::Skip);
    assert_eq!(on_ws_message(Some(Ok(WsMessageKind::Pong))), ReadDecision::Skip);
    assert_eq!(on_ws_message(Some(Ok(WsMessageKind::Text))), ReadDecision::Fail(ReadFailure::UnexpectedText));
    assert_eq!(on_ws_message(Some(Ok(WsMessageKind::Close))), ReadDecision::Fail(ReadFailure::ClientClosed));
}

#[test]
fn target_address_joins_host_and_port() {
    assert_eq!(target_address(&mk_target("10.0.0.5", 3389)), "10.0.0.5:3389");
}

fn request(destination: Option<&str>, proxy_auth: Option<&str>) -> HandshakeEvent {
    HandshakeEvent::Request {
        destination: destination.map(|d| d.to_owned()),
        proxy_auth: proxy_auth.map(|t| t.to_owned()),
    }
}

#[test]
fn handshake_allowed_connection_reaches_relay() {
    let (state, action) = step(HandshakeState::AwaitingRequest, request(Some("10.0.0.5:3389"), Some("tok")));
    match action {
        HandshakeAction::Authenticate(c) => assert_eq!(c.token, "tok"),
        _ => panic!("expected authentication"),
    }
    match &state {
        HandshakeState::Authenticating { target } => {
            assert_eq!(target.host, "10.0.0.5");
            assert_eq!(target.port, 3389);
        }
        _ => panic!("expected authenticating"),
    }
    let (state, action) = step(state, HandshakeEvent::Authenticated(Ok(mk_identity("admin"))));
    assert!(matches!(action, HandshakeAction::Authorize));
    let (state, action) = step(state, HandshakeEvent::Authorized(Ok(AuthzDecision::Allow)));
    match action {
        HandshakeAction::Connect { target_addr } => assert_eq!(target_addr, "10.0.0.5:3389"),
        _ => panic!("expected connect"),
    }
    match state {
        HandshakeState::Relaying { identity, target } => {
            assert_eq!(identity.principal, "admin");
            assert_eq!(target.port, 3389);
        }
        _ => panic!("expected relaying"),
    }
}

#[test]
fn handshake_request_errors() {
    let (state, action) = step(HandshakeState::AwaitingRequest, request(None, Some("tok")));
    assert!(matches!(state, HandshakeState::Closed));
    assert!(matches!(action, HandshakeAction::Fail(HandshakeFailure::MissingDestination)));
    let (_, action) = step(HandshakeState::AwaitingRequest, request(Some("h:1"), None));
    assert!(matches!(action, HandshakeAction::Fail(HandshakeFailure::MissingProxyAuth)));
    let (_, action) = step(HandshakeState::AwaitingRequest, request(Some("no-port"), Some("tok")));
    assert!(matches!(action, HandshakeAction::Fail(HandshakeFailure::InvalidDestination)));
}

#[test]
fn handshake_refusals_carry_http_status() {
    let authenticating = HandshakeState::Authenticating { target: mk_target("h", 1) };
    let err = GatewayError { message: "bad token".to_owned() };
    let (state, action) = step(authenticating, HandshakeEvent::Authenticated(Err(err)));
    assert!(matches!(state, HandshakeState::Closed));
    match action {
        HandshakeAction::Reject { http_status, failure: HandshakeFailure::AuthenticationFailed(e) } => {
            assert_eq!(http_status, 401);
            assert_eq!(e.message, "bad token");
        }
        _ => panic!("expected 401"),
    }

    let authorizing = || HandshakeState::Authorizing { identity: mk_identity("guest"), target: mk_target("h", 1) };
    let (_, action) = step(authorizing(), HandshakeEvent::Authorized(Ok(AuthzDecision::Deny)));
    assert!(matches!(action, HandshakeAction::Reject { http_status: 403, failure: HandshakeFailure::Denied }));
    let err = GatewayError { message: "backend down".to_owned() };
    let (_, action) = step(authorizing(), HandshakeEvent::Authorized(Err(err)));
    assert!(matches!(
        action,
        HandshakeAction::Reject { http_status: 500, failure: HandshakeFailure::PolicyBackendFailed(_) }
    ));
}

#[test]
fn handshake_out_of_order_event_closes() {
    let (state, action) = step(HandshakeState::AwaitingRequest, HandshakeEvent::Authorized(Ok(AuthzDecision::Allow)));
    assert!(matches!(state, HandshakeState::Closed));
    assert!(matches!(action, HandshakeAction::Fail(HandshakeFailure::OutOfOrder)));
}

#[test]
fn ws_read_steps() {
    assert_eq!(ws_read_step(None), WsReadStep::Eof);
    assert_eq!(ws_read_step(Some(Err(()))), WsReadStep::Fail);
    assert_eq!(ws_read_step(Some(Ok(WsMessageKind::Binary))), WsReadStep::Deliver);
    assert_eq!(ws_read_step(Some(Ok(WsMessageKind::Text))), WsReadStep::Skip);
    assert_eq!(ws_read_step(Some(Ok(WsMessageKind::Close))), WsReadStep::Skip);
}

#[test]
fn ws_binary_message_split_across_reads() {
    let mut buf = WsReadBuffer::new();
    assert!(!buf.has_pending());
    let mut out = Vec::new();
    assert_eq!(buf.deliver_binary(vec![1, 2, 3, 4, 5], &mut out, 2), 2);
    assert_eq!(out, vec![1, 2]);
    assert!(buf.has_pending());
    let mut out = Vec::new();
    assert_eq!(buf.read_pending(&mut out, 2), 2);
    assert_eq!(out, vec![3, 4]);
    let mut out = Vec::new();
    assert_eq!(buf.read_pending(&mut out, 10), 1);
    assert_eq!(out, vec![5]);
    assert!(!buf.has_pending());
}

#[test]
fn ws_binary_message_that_fits_leaves_nothing() {
    let mut buf = WsReadBuffer::new();
    let mut out = vec![9];
    assert_eq!(buf.deliver_binary(vec![1, 2], &mut out, 8), 2);
    assert_eq!(out, vec![9, 1, 2]);
    assert!(!buf.has_pending());
}
