use quic_bootstrap::bootstrap::{Action, BootstrapError, EndpointState, Event, HandshakeError, Phase, Role};
use quic_bootstrap::trust::{RejectReason, TrustPolicy};
use quic_bootstrap::bootstrap::handshake_result;

fn run(mut s: EndpointState, events: Vec<Event>) -> (EndpointState, Vec<Action>) {
    let mut actions = Vec::new();
    for e in events {
        let (next, a) = s.step(e);
        s = next;
        actions.push(a);
    }
    (s, actions)
}

#[test]
fn server_and_client_reach_connected() {
    let (server, sa) = run(EndpointState::new(Role::Server), vec![Event::BindSucceeded, Event::HandshakeSucceeded]);
    assert_eq!(sa, vec![Action::AcceptNext, Action::ReportConnected]);
    assert_eq!(server.phase, Phase::Connected);
    assert_eq!(server.connection_refs, 1);
    let (client, ca) = run(
        EndpointState::new(Role::Client),
        vec![Event::BindSucceeded, Event::ConnectRequested, Event::HandshakeSucceeded],
    );
    assert_eq!(ca, vec![Action::Nothing, Action::Dial, Action::ReportConnected]);
    assert_eq!(client.phase, Phase::Connected);
}

#[test]
fn client_drop_then_wait_idle_drains() {
    let (s, a) = run(
        EndpointState::new(Role::Client),
        vec![
            Event::BindSucceeded,
            Event::ConnectRequested,
            Event::HandshakeSucceeded,
            Event::HandleDropped,
            Event::WaitIdleRequested,
            Event::Drained,
            Event::WaitIdleRequested,
        ],
    );
    assert_eq!(
        a,
        vec![
            Action::Nothing,
            Action::Dial,
            Action::ReportConnected,
            Action::SignalClose,
            Action::AwaitDrain,
            Action::Idle,
            Action::Idle
        ]
    );
    assert_eq!(s.phase, Phase::Bound);
    assert!(!s.draining);
}

#[test]
fn strict_trust_with_empty_store_fails_client_only() {
    let decision = TrustPolicy::Strict { roots: vec![] }.verify(&vec![vec![0x30]], "localhost");
    let err = handshake_result(decision).unwrap_err();
    assert_eq!(err, HandshakeError::TrustRejected(RejectReason::NoUsableRoots));
    let (client, ca) = run(
        EndpointState::new(Role::Client),
        vec![Event::BindSucceeded, Event::ConnectRequested, Event::HandshakeFailed(err.clone())],
    );
    assert_eq!(ca[2], Action::Fail(BootstrapError::Handshake(err)));
    assert_eq!(client.phase, Phase::Bound);
    let (server, sa) = run(
        EndpointState::new(Role::Server),
        vec![Event::BindSucceeded, Event::HandshakeFailed(HandshakeError::PeerAborted), Event::HandshakeSucceeded],
    );
    assert_eq!(sa[1], Action::ReportAttemptFailed(HandshakeError::PeerAborted));
    assert_eq!(sa[2], Action::ReportConnected);
    assert_eq!(server.phase, Phase::Connected);
}

#[test]
fn closing_twice_signals_once() {
    let (s, a) = run(
        EndpointState::new(Role::Server),
        vec![Event::BindSucceeded, Event::HandshakeSucceeded, Event::CloseRequested, Event::CloseRequested],
    );
    assert_eq!(a[2], Action::SignalClose);
    assert_eq!(a[3], Action::Nothing);
    assert_eq!(s.phase, Phase::Closed);
    let signals = a.iter().filter(|x| **x == Action::SignalClose).count();
    assert_eq!(signals, 1);
}

#[test]
fn two_handles_dropping_signal_once() {
    let (s, a) = run(
        EndpointState::new(Role::Client),
        vec![
            Event::BindSucceeded,
            Event::ConnectRequested,
            Event::HandshakeSucceeded,
            Event::HandleCloned,
            Event::HandleDropped,
            Event::HandleDropped,
            Event::HandleDropped,
        ],
    );
    assert_eq!(&a[3..], &[Action::Nothing, Action::Nothing, Action::SignalClose, Action::Nothing]);
    assert_eq!(s.connection_refs, 0);
}

#[test]
fn wait_idle_without_connections_returns_at_once() {
    let s = EndpointState::new(Role::Client);
    assert_eq!(s.step(Event::WaitIdleRequested), (s, Action::Idle));
    let (bound, _) = run(EndpointState::new(Role::Server), vec![Event::BindSucceeded]);
    assert_eq!(bound.step(Event::WaitIdleRequested).1, Action::Idle);
}

#[test]
fn failed_bind_fails_only_that_endpoint() {
    let (first, _) = run(EndpointState::new(Role::Server), vec![Event::BindSucceeded]);
    let (second, a) = run(EndpointState::new(Role::Server), vec![Event::BindFailed]);
    assert_eq!(a, vec![Action::Fail(BootstrapError::Bind)]);
    assert_eq!(second.phase, Phase::Closed);
    assert_eq!(first.phase, Phase::Listening);
    assert_eq!(first.step(Event::HandshakeSucceeded).1, Action::ReportConnected);
}

#[test]
fn close_while_accepting_fails_pending_accept() {
    let (s, a) = run(EndpointState::new(Role::Server), vec![Event::BindSucceeded, Event::CloseRequested]);
    assert_eq!(a[1], Action::Fail(BootstrapError::EndpointClosed));
    assert_eq!(s.step(Event::HandshakeSucceeded).1, Action::Fail(BootstrapError::EndpointClosed));
}

#[test]
fn client_can_connect_again_after_failed_handshake() {
    let (s, a) = run(
        EndpointState::new(Role::Client),
        vec![
            Event::BindSucceeded,
            Event::ConnectRequested,
            Event::HandshakeFailed(HandshakeError::Timeout),
            Event::ConnectRequested,
            Event::HandshakeSucceeded,
        ],
    );
    assert_eq!(a[2], Action::Fail(BootstrapError::Handshake(HandshakeError::Timeout)));
    assert_eq!(a[3], Action::Dial);
    assert_eq!(a[4], Action::ReportConnected);
    assert_eq!(s.phase, Phase::Connected);
}

#[test]
fn connect_on_closed_client_fails() {
    let (s, _) = run(EndpointState::new(Role::Client), vec![Event::BindSucceeded, Event::CloseRequested]);
    assert_eq!(s.step(Event::ConnectRequested).1, Action::Fail(BootstrapError::EndpointClosed));
}

#[test]
fn cancelled_connect_leaves_client_able_to_dial() {
    let (s, a) = run(
        EndpointState::new(Role::Client),
        vec![Event::BindSucceeded, Event::ConnectRequested, Event::AttemptCancelled, Event::ConnectRequested],
    );
    assert_eq!(a[2], Action::Nothing);
    assert_eq!(a[3], Action::Dial);
    assert_eq!(s.phase, Phase::Connecting);
    let (server, sa) = run(EndpointState::new(Role::Server), vec![Event::BindSucceeded, Event::AttemptCancelled]);
    assert_eq!(sa[1], Action::Nothing);
    assert_eq!(server.phase, Phase::Listening);
}
