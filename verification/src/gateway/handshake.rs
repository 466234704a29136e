//! The decisions of a gateway connection, from the client's first message
//! to the start of the relay: which message carries the request, what is
//! authenticated, what is authorized, and which error a refusal sends.
//!
//! The caller performs the I/O (TLS, WebSocket, authentication and policy
//! backends, the connection to the host) and reports each outcome as an
//! event; every step returns the next state and what to do next.

use vstd::prelude::*;

use crate::gateway::auth::{Credentials, Identity};
use crate::gateway::policy::{AuthzDecision, GatewayError, TargetHost, split_host_port};
use crate::text::{append_decimal, dec_digits};

verus! {

/// The kind of a WebSocket message received while waiting for the request.
#[derive(Debug, Clone, Copy, PartialEq, Eq, Structural)]
pub enum WsMessageKind {
    Binary,
    Text,
    Ping,
    Pong,
    Close,
    /// A raw frame; reading never yields one.
    Frame,
}

/// Why no request could be read.
#[derive(Debug, Clone, Copy, PartialEq, Eq, Structural)]
pub enum ReadFailure {
    /// The WebSocket closed before any message.
    StreamClosed,
    /// Receiving failed.
    ReceiveError,
    /// A text message came where the binary request was expected.
    UnexpectedText,
    /// The client sent a close message.
    ClientClosed,
}

/// What to do with a received message while waiting for the request.
#[derive(Debug, Clone, Copy, PartialEq, Eq, Structural)]
pub enum ReadDecision {
    /// Decode the binary message as the request.
    Decode,
    /// Skip a control message and read the next one.
    Skip,
    /// Give up.
    Fail(ReadFailure),
}

/// What happens to the next WebSocket message (`None` when the stream
/// ended, `Some(Err(()))` when receiving failed).
pub open spec fn read_decision(message: Option<Result<WsMessageKind, ()>>) -> ReadDecision {
    match message {
        None => ReadDecision::Fail(ReadFailure::StreamClosed),
        Some(Err(_)) => ReadDecision::Fail(ReadFailure::ReceiveError),
        Some(Ok(WsMessageKind::Binary)) => ReadDecision::Decode,
        Some(Ok(WsMessageKind::Ping)) | Some(Ok(WsMessageKind::Pong)) => ReadDecision::Skip,
        Some(Ok(WsMessageKind::Text)) => ReadDecision::Fail(ReadFailure::UnexpectedText),
        Some(Ok(_)) => ReadDecision::Fail(ReadFailure::ClientClosed),
    }
}

/// Decides what to do with the next WebSocket message.
pub fn on_ws_message(message: Option<Result<WsMessageKind, ()>>) -> (r: ReadDecision)
    requires
        message != Some(Ok::<WsMessageKind, ()>(WsMessageKind::Frame)),
    ensures
        r == read_decision(message),
{
    match message {
        None => ReadDecision::Fail(ReadFailure::StreamClosed),
        Some(Err(_)) => ReadDecision::Fail(ReadFailure::ReceiveError),
        Some(Ok(kind)) => match kind {
            WsMessageKind::Binary => ReadDecision::Decode,
            WsMessageKind::Ping | WsMessageKind::Pong => ReadDecision::Skip,
            WsMessageKind::Text => ReadDecision::Fail(ReadFailure::UnexpectedText),
            _ => ReadDecision::Fail(ReadFailure::ClientClosed),
        },
    }
}

/// Why a connection was refused.
#[derive(Debug, Clone)]
pub enum HandshakeFailure {
    /// The request has no destination.
    MissingDestination,
    /// The request has no proxy credentials.
    MissingProxyAuth,
    /// The destination is not `host:port`.
    InvalidDestination,
    /// The authenticator refused the credentials or failed.
    AuthenticationFailed(GatewayError),
    /// The policy backend failed.
    PolicyBackendFailed(GatewayError),
    /// The policy denied the connection.
    Denied,
    /// An outcome arrived that the current state does not wait for.
    OutOfOrder,
}

/// Where a connection stands.
pub enum HandshakeState {
    /// Waiting for the client's request.
    AwaitingRequest,
    /// The credentials are being checked.
    Authenticating { target: TargetHost },
    /// The policy is being consulted.
    Authorizing { identity: Identity, target: TargetHost },
    /// Connecting to the host and relaying.
    Relaying { identity: Identity, target: TargetHost },
    /// The connection was refused.
    Closed,
}

/// An outcome that the caller reports.
pub enum HandshakeEvent {
    /// The request's destination and proxy credentials.
    Request { destination: Option<String>, proxy_auth: Option<String> },
    /// What the authenticator answered.
    Authenticated(Result<Identity, GatewayError>),
    /// What the policy answered.
    Authorized(Result<AuthzDecision, GatewayError>),
}

/// What the caller does next.
pub enum HandshakeAction {
    /// Authenticate these credentials.
    Authenticate(Credentials),
    /// Ask the policy about the identity and target held by the state.
    Authorize,
    /// Connect to `target_addr` and relay.
    Connect { target_addr: String },
    /// Send an error response with this HTTP status, then close.
    Reject { http_status: u16, failure: HandshakeFailure },
    /// Close without a response.
    Fail(HandshakeFailure),
}

/// `host:port` of a target.
pub open spec fn target_text(t: TargetHost) -> Seq<char> {
    t.host@ + ":"@ + dec_digits(t.port as nat)
}

/// The address to connect to: `host:port`.
pub fn target_address(target: &TargetHost) -> (r: String)
    ensures
        r@ == target_text(*target),
{
    let mut s = target.host.clone();
    s.append(":");
    append_decimal(&mut s, target.port as u64);
    s
}

/// The step the handshake takes on `event` in `state`, as a relation on
/// the next state and action.
pub open spec fn step_spec(state: HandshakeState, event: HandshakeEvent, next: HandshakeState, action: HandshakeAction) -> bool {
    match (state, event) {
        (HandshakeState::AwaitingRequest, HandshakeEvent::Request { destination, proxy_auth }) => match (
            destination,
            proxy_auth,
        ) {
            (None, _) => next is Closed && action matches HandshakeAction::Fail(HandshakeFailure::MissingDestination),
            (Some(_), None) => next is Closed && action matches HandshakeAction::Fail(
                HandshakeFailure::MissingProxyAuth,
            ),
            (Some(d), Some(token)) => match split_host_port(d@) {
                None => next is Closed && action matches HandshakeAction::Fail(HandshakeFailure::InvalidDestination),
                Some((host, port)) => (next matches HandshakeState::Authenticating { target } && target.host@
                    == host && target.port == port) && (action matches HandshakeAction::Authenticate(c)
                    && c.token@ == token@),
            },
        },
        (HandshakeState::Authenticating { target }, HandshakeEvent::Authenticated(result)) => match result {
            Ok(identity) => next == (HandshakeState::Authorizing { identity, target }) && action is Authorize,
            Err(e) => next is Closed && (action matches HandshakeAction::Reject { http_status, failure }
                && http_status == 401 && failure == HandshakeFailure::AuthenticationFailed(e)),
        },
        (HandshakeState::Authorizing { identity, target }, HandshakeEvent::Authorized(result)) => match result {
            Ok(AuthzDecision::Allow) => next == (HandshakeState::Relaying { identity, target }) && (
            action matches HandshakeAction::Connect { target_addr } && target_addr@ == target_text(target)),
            Ok(AuthzDecision::Deny) => next is Closed && (action matches HandshakeAction::Reject {
                http_status,
                failure,
            } && http_status == 403 && failure is Denied),
            Err(e) => next is Closed && (action matches HandshakeAction::Reject { http_status, failure }
                && http_status == 500 && failure == HandshakeFailure::PolicyBackendFailed(e)),
        },
        _ => next is Closed && action matches HandshakeAction::Fail(HandshakeFailure::OutOfOrder),
    }
}

/// Advances the handshake on `event`.
pub fn step(state: HandshakeState, event: HandshakeEvent) -> (r: (HandshakeState, HandshakeAction))
    ensures
        step_spec(state, event, r.0, r.1),
{
    match (state, event) {
        (HandshakeState::AwaitingRequest, HandshakeEvent::Request { destination, proxy_auth }) => {
            let destination = match destination {
                Some(d) => d,
                None => {
                    return (HandshakeState::Closed, HandshakeAction::Fail(HandshakeFailure::MissingDestination));
                },
            };
            let token = match proxy_auth {
                Some(t) => t,
                None => {
                    return (HandshakeState::Closed, HandshakeAction::Fail(HandshakeFailure::MissingProxyAuth));
                },
            };
            match TargetHost::from_destination(destination.as_str()) {
                None => (HandshakeState::Closed, HandshakeAction::Fail(HandshakeFailure::InvalidDestination)),
                Some(target) => (
                    HandshakeState::Authenticating { target },
                    HandshakeAction::Authenticate(Credentials { token }),
                ),
            }
        },
        (HandshakeState::Authenticating { target }, HandshakeEvent::Authenticated(result)) => match result {
            Ok(identity) => (HandshakeState::Authorizing { identity, target }, HandshakeAction::Authorize),
            Err(e) => (
                HandshakeState::Closed,
                HandshakeAction::Reject { http_status: 401, failure: HandshakeFailure::AuthenticationFailed(e) },
            ),
        },
        (HandshakeState::Authorizing { identity, target }, HandshakeEvent::Authorized(result)) => match result {
            Ok(AuthzDecision::Allow) => {
                let target_addr = target_address(&target);
                (HandshakeState::Relaying { identity, target }, HandshakeAction::Connect { target_addr })
            },
            Ok(AuthzDecision::Deny) => (
                HandshakeState::Closed,
                HandshakeAction::Reject { http_status: 403, failure: HandshakeFailure::Denied },
            ),
            Err(e) => (
                HandshakeState::Closed,
                HandshakeAction::Reject { http_status: 500, failure: HandshakeFailure::PolicyBackendFailed(e) },
            ),
        },
        _ => (HandshakeState::Closed, HandshakeAction::Fail(HandshakeFailure::OutOfOrder)),
    }
}

/// A connection reaches the relay only through an allowing policy: every
/// step into the relaying state is an `Allow` answer while authorizing.
pub proof fn lemma_relay_only_after_allow(
    state: HandshakeState,
    event: HandshakeEvent,
    next: HandshakeState,
    action: HandshakeAction,
)
    requires
        step_spec(state, event, next, action),
        next is Relaying,
    ensures
        state is Authorizing,
        event matches HandshakeEvent::Authorized(Ok(AuthzDecision::Allow)),
{
}

/// A run of the handshake: from the initial state, state `i + 1` and
/// action `i` are the step taken on event `i` in state `i`.
pub open spec fn handshake_run(
    events: Seq<HandshakeEvent>,
    states: Seq<HandshakeState>,
    actions: Seq<HandshakeAction>,
) -> bool {
    &&& states.len() == events.len() + 1
    &&& actions.len() == events.len()
    &&& states[0] is AwaitingRequest
    &&& forall|i: int|
        #![trigger actions[i]]
        0 <= i < events.len() ==> step_spec(states[i], events[i], states[i + 1], actions[i])
}

/// A run connects only as its third step, after a request whose destination
/// parses, an authentication of exactly the request's credentials that gave
/// an identity, and an `Allow` from the policy; it connects to the
/// destination's host and port.
pub proof fn lemma_connect_only_after_authentication_and_allow(
    events: Seq<HandshakeEvent>,
    states: Seq<HandshakeState>,
    actions: Seq<HandshakeAction>,
    k: int,
)
    requires
        handshake_run(events, states, actions),
        0 <= k < actions.len(),
        actions[k] is Connect,
    ensures
        k == 2,
        events[0] matches HandshakeEvent::Request { destination: Some(d), proxy_auth: Some(token) } && (
        split_host_port(d@) matches Some((host, port)) && (actions[0] matches HandshakeAction::Authenticate(c)
            && c.token@ == token@) && actions[2]->target_addr@ == host + ":"@ + dec_digits(port as nat)),
        events[1] matches HandshakeEvent::Authenticated(Ok(_)),
        actions[1] is Authorize,
        events[2] matches HandshakeEvent::Authorized(Ok(AuthzDecision::Allow)),
{
    assert(step_spec(states[k], events[k], states[k + 1], actions[k]));
    assert(states[k] is Authorizing);
    assert(k != 0);
    assert(step_spec(states[k - 1], events[k - 1], states[k], actions[k - 1]));
    assert(states[k - 1] is Authenticating);
    assert(k - 1 != 0);
    assert(step_spec(states[k - 2], events[k - 2], states[k - 1], actions[k - 2]));
    assert(states[k - 2] is AwaitingRequest);
    if k - 2 != 0 {
        assert(step_spec(states[k - 3], events[k - 3], states[k - 2], actions[k - 3]));
    }
}

/// Once a run is closed it stays closed, and every later step only fails
/// as out of order: nothing more is authenticated, authorized or connected.
pub proof fn lemma_closed_run_stays_closed(
    events: Seq<HandshakeEvent>,
    states: Seq<HandshakeState>,
    actions: Seq<HandshakeAction>,
    i: int,
    j: int,
)
    requires
        handshake_run(events, states, actions),
        0 <= i <= j < actions.len(),
        states[i] is Closed,
    ensures
        states[j] is Closed,
        actions[j] matches HandshakeAction::Fail(HandshakeFailure::OutOfOrder),
    decreases j - i,
{
    if i < j {
        assert(step_spec(states[i], events[i], states[i + 1], actions[i]));
        lemma_closed_run_stays_closed(events, states, actions, i + 1, j);
    } else {
        assert(step_spec(states[j], events[j], states[j + 1], actions[j]));
    }
}

/// A request without a destination, without proxy credentials, or whose
/// destination does not parse is refused before anything is authenticated
/// or authorized, and the run never connects.
pub proof fn lemma_bad_request_never_authenticates(
    events: Seq<HandshakeEvent>,
    states: Seq<HandshakeState>,
    actions: Seq<HandshakeAction>,
    j: int,
)
    requires
        handshake_run(events, states, actions),
        0 <= j < actions.len(),
        events[0] matches HandshakeEvent::Request { destination, proxy_auth } && (destination is None
            || proxy_auth is None || split_host_port(destination->Some_0@) is None),
    ensures
        actions[j] is Fail,
{
    assert(step_spec(states[0], events[0], states[1], actions[0]));
    if j > 0 {
        lemma_closed_run_stays_closed(events, states, actions, 1, j);
    }
}

/// A refused authentication is answered with 401, and the run never
/// authorizes or connects afterwards.
pub proof fn lemma_failed_authentication_is_final(
    events: Seq<HandshakeEvent>,
    states: Seq<HandshakeState>,
    actions: Seq<HandshakeAction>,
    i: int,
    j: int,
)
    requires
        handshake_run(events, states, actions),
        0 <= i < j < actions.len(),
        states[i] is Authenticating,
        events[i] matches HandshakeEvent::Authenticated(Err(_)),
    ensures
        actions[i] matches HandshakeAction::Reject { http_status, .. } && http_status == 401,
        actions[j] is Fail,
{
    assert(step_spec(states[i], events[i], states[i + 1], actions[i]));
    lemma_closed_run_stays_closed(events, states, actions, i + 1, j);
}

} // verus!
