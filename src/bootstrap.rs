//! The connection bootstrapper of each role as a state machine: given the
//! endpoint's state and what just happened on the network, the next state and
//! what the driver has to do next.
use vstd::prelude::*;
use crate::trust::{RejectReason, TrustDecision};

verus! {

#[derive(Clone, Copy, Debug, PartialEq, Eq, Structural)]
pub enum Role {
    /// Listens and accepts one connection.
    Server,
    /// Dials one connection.
    Client,
}

#[derive(Clone, Copy, Debug, PartialEq, Eq, Structural)]
pub enum Phase {
    /// No socket yet.
    Unbound,
    /// Client socket bound, no handshake in progress; it can dial.
    Bound,
    /// Server socket bound, waiting for a handshake to complete.
    Listening,
    /// Client handshake in progress.
    Connecting,
    /// A connection is established.
    Connected,
    /// The endpoint was closed; it serves nothing more.
    Closed,
}

/// Why a connection attempt failed. Fatal to the attempt, never to the endpoint.
#[derive(Clone, Debug, PartialEq, Eq)]
pub enum HandshakeError {
    TrustRejected(RejectReason),
    Timeout,
    TransportMismatch,
    PeerAborted,
}

/// How the transport reported a failed handshake.
#[derive(Clone, Copy, Debug, PartialEq, Eq, Structural)]
pub enum ConnectionFailure {
    /// The handshake ran out of time.
    TimedOut,
    /// The peer supports no common protocol version.
    VersionMismatch,
    /// A transport or TLS error ended the handshake.
    TransportError,
    /// The peer closed, reset or aborted the connection.
    Aborted,
}

#[derive(Clone, Debug, PartialEq, Eq)]
pub enum BootstrapError {
    /// The address is in use or unavailable.
    Bind,
    Handshake(HandshakeError),
    /// The operation was issued to, or pending on, a closed endpoint.
    EndpointClosed,
}

/// What the network reported, or what the caller did.
#[derive(Clone, Debug, PartialEq, Eq)]
pub enum Event {
    /// The socket was bound.
    BindSucceeded,
    /// The caller dials the server from a bound client endpoint.
    ConnectRequested,
    /// The caller dropped a pending connect or accept.
    AttemptCancelled,
    BindFailed,
    /// A handshake completed; the peer is authenticated.
    HandshakeSucceeded,
    HandshakeFailed(HandshakeError),
    /// A further reference to the connection handle was taken.
    HandleCloned,
    /// A reference to the connection handle was released.
    HandleDropped,
    /// The caller closed the endpoint.
    CloseRequested,
    /// The caller waits for the endpoint to become idle.
    WaitIdleRequested,
    /// Every close handshake that was signalled has finished.
    Drained,
}

/// What the driver does next.
#[derive(Clone, Debug, PartialEq, Eq)]
pub enum Action {
    /// Nothing.
    Nothing,
    /// Wait for the next incoming handshake.
    AcceptNext,
    /// Start the handshake with the server.
    Dial,
    /// Hand the established connection to the caller.
    ReportConnected,
    /// A handshake failed; the endpoint keeps accepting.
    ReportAttemptFailed(HandshakeError),
    /// Send the graceful close signal to the peer.
    SignalClose,
    /// Suspend until close handshakes have drained.
    AwaitDrain,
    /// The endpoint is idle: `wait_idle` returns.
    Idle,
    /// The operation fails.
    Fail(BootstrapError),
}

/// The state of one endpoint: its role and phase, how many references to its
/// live connection are held (zero when there is none), and whether a close
/// signal is still draining.
#[derive(Clone, Copy, Debug, PartialEq, Eq, Structural)]
pub struct EndpointState {
    pub role: Role,
    pub phase: Phase,
    pub connection_refs: u64,
    pub draining: bool,
}

impl EndpointState {
    /// A connection is held exactly in the `Connected` phase.
    pub open spec fn wf(&self) -> bool {
        (self.phase == Phase::Connected) <==> self.connection_refs > 0
    }

    /// The phase an endpoint of this role returns to once its connection is gone.
    pub open spec fn idle_phase(role: Role) -> Phase {
        match role {
            Role::Server => Phase::Listening,
            Role::Client => Phase::Bound,
        }
    }

    /// The next state and action of the bootstrapper.
    pub open spec fn transition(self, e: Event) -> (EndpointState, Action) {
        let s = self;
        match e {
            Event::CloseRequested => match s.phase {
                Phase::Closed => (s, Action::Nothing),
                Phase::Connected => (
                    EndpointState { phase: Phase::Closed, connection_refs: 0, draining: true, ..s },
                    Action::SignalClose,
                ),
                Phase::Listening | Phase::Connecting => (
                    EndpointState { phase: Phase::Closed, ..s },
                    Action::Fail(BootstrapError::EndpointClosed),
                ),
                _ => (EndpointState { phase: Phase::Closed, ..s }, Action::Nothing),
            },
            Event::WaitIdleRequested => if s.draining {
                (s, Action::AwaitDrain)
            } else {
                (s, Action::Idle)
            },
            Event::Drained => (EndpointState { draining: false, ..s }, Action::Idle),
            Event::HandleCloned => if s.phase == Phase::Connected && s.connection_refs < u64::MAX {
                (EndpointState { connection_refs: (s.connection_refs + 1) as u64, ..s }, Action::Nothing)
            } else {
                (s, Action::Nothing)
            },
            Event::HandleDropped => if s.phase != Phase::Connected || s.connection_refs == 0 {
                (s, Action::Nothing)
            } else if s.connection_refs == 1 {
                (
                    EndpointState {
                        phase: Self::idle_phase(s.role),
                        connection_refs: 0,
                        draining: true,
                        ..s
                    },
                    Action::SignalClose,
                )
            } else {
                (EndpointState { connection_refs: (s.connection_refs - 1) as u64, ..s }, Action::Nothing)
            },
            Event::BindSucceeded => match s.phase {
                Phase::Unbound => match s.role {
                    Role::Server => (EndpointState { phase: Phase::Listening, ..s }, Action::AcceptNext),
                    Role::Client => (EndpointState { phase: Phase::Bound, ..s }, Action::Nothing),
                },
                Phase::Closed => (s, Action::Fail(BootstrapError::EndpointClosed)),
                _ => (s, Action::Nothing),
            },
            Event::ConnectRequested => match s.phase {
                Phase::Bound => (EndpointState { phase: Phase::Connecting, ..s }, Action::Dial),
                Phase::Closed => (s, Action::Fail(BootstrapError::EndpointClosed)),
                _ => (s, Action::Nothing),
            },
            Event::AttemptCancelled => match s.phase {
                Phase::Connecting => (EndpointState { phase: Phase::Bound, ..s }, Action::Nothing),
                _ => (s, Action::Nothing),
            },
            Event::BindFailed => match s.phase {
                Phase::Unbound => (EndpointState { phase: Phase::Closed, ..s }, Action::Fail(BootstrapError::Bind)),
                Phase::Closed => (s, Action::Fail(BootstrapError::EndpointClosed)),
                _ => (s, Action::Nothing),
            },
            Event::HandshakeSucceeded => match s.phase {
                Phase::Listening | Phase::Connecting => (
                    EndpointState { phase: Phase::Connected, connection_refs: 1, ..s },
                    Action::ReportConnected,
                ),
                Phase::Closed => (s, Action::Fail(BootstrapError::EndpointClosed)),
                _ => (s, Action::Nothing),
            },
            Event::HandshakeFailed(err) => match s.phase {
                Phase::Listening => (s, Action::ReportAttemptFailed(err)),
                Phase::Connecting => (
                    EndpointState { phase: Phase::Bound, ..s },
                    Action::Fail(BootstrapError::Handshake(err)),
                ),
                Phase::Closed => (s, Action::Fail(BootstrapError::EndpointClosed)),
                _ => (s, Action::Nothing),
            },
        }
    }

    /// A fresh endpoint of the given role, before its socket is bound.
    pub fn new(role: Role) -> (r: EndpointState)
        ensures
            r.role == role,
            r.phase == Phase::Unbound,
            r.connection_refs == 0,
            !r.draining,
            r.wf(),
    {
        EndpointState { role, phase: Phase::Unbound, connection_refs: 0, draining: false }
    }

    /// Takes one step of the bootstrapper.
    pub fn step(&self, e: Event) -> (r: (EndpointState, Action))
        ensures
            r == self.transition(e),
            self.wf() ==> r.0.wf(),
            r.0.role == self.role,
    {
        let s = *self;
        match e {
            Event::CloseRequested => match s.phase {
                Phase::Closed => (s, Action::Nothing),
                Phase::Connected => (
                    EndpointState { phase: Phase::Closed, connection_refs: 0, draining: true, ..s },
                    Action::SignalClose,
                ),
                Phase::Listening | Phase::Connecting => (
                    EndpointState { phase: Phase::Closed, ..s },
                    Action::Fail(BootstrapError::EndpointClosed),
                ),
                _ => (EndpointState { phase: Phase::Closed, ..s }, Action::Nothing),
            },
            Event::WaitIdleRequested => if s.draining {
                (s, Action::AwaitDrain)
            } else {
                (s, Action::Idle)
            },
            Event::Drained => (EndpointState { draining: false, ..s }, Action::Idle),
            Event::HandleCloned => if s.phase == Phase::Connected && s.connection_refs < u64::MAX {
                (EndpointState { connection_refs: s.connection_refs + 1, ..s }, Action::Nothing)
            } else {
                (s, Action::Nothing)
            },
            Event::HandleDropped => if s.phase != Phase::Connected || s.connection_refs == 0 {
                (s, Action::Nothing)
            } else if s.connection_refs == 1 {
                let idle = match s.role {
                    Role::Server => Phase::Listening,
                    Role::Client => Phase::Bound,
                };
                (
                    EndpointState { phase: idle, connection_refs: 0, draining: true, ..s },
                    Action::SignalClose,
                )
            } else {
                (EndpointState { connection_refs: s.connection_refs - 1, ..s }, Action::Nothing)
            },
            Event::BindSucceeded => match s.phase {
                Phase::Unbound => match s.role {
                    Role::Server => (EndpointState { phase: Phase::Listening, ..s }, Action::AcceptNext),
                    Role::Client => (EndpointState { phase: Phase::Bound, ..s }, Action::Nothing),
                },
                Phase::Closed => (s, Action::Fail(BootstrapError::EndpointClosed)),
                _ => (s, Action::Nothing),
            },
            Event::ConnectRequested => match s.phase {
                Phase::Bound => (EndpointState { phase: Phase::Connecting, ..s }, Action::Dial),
                Phase::Closed => (s, Action::Fail(BootstrapError::EndpointClosed)),
                _ => (s, Action::Nothing),
            },
            Event::AttemptCancelled => match s.phase {
                Phase::Connecting => (EndpointState { phase: Phase::Bound, ..s }, Action::Nothing),
                _ => (s, Action::Nothing),
            },
            Event::BindFailed => match s.phase {
                Phase::Unbound => (EndpointState { phase: Phase::Closed, ..s }, Action::Fail(BootstrapError::Bind)),
                Phase::Closed => (s, Action::Fail(BootstrapError::EndpointClosed)),
                _ => (s, Action::Nothing),
            },
            Event::HandshakeSucceeded => match s.phase {
                Phase::Listening | Phase::Connecting => (
                    EndpointState { phase: Phase::Connected, connection_refs: 1, ..s },
                    Action::ReportConnected,
                ),
                Phase::Closed => (s, Action::Fail(BootstrapError::EndpointClosed)),
                _ => (s, Action::Nothing),
            },
            Event::HandshakeFailed(err) => match s.phase {
                Phase::Listening => (s, Action::ReportAttemptFailed(err)),
                Phase::Connecting => (
                    EndpointState { phase: Phase::Bound, ..s },
                    Action::Fail(BootstrapError::Handshake(err)),
                ),
                Phase::Closed => (s, Action::Fail(BootstrapError::EndpointClosed)),
                _ => (s, Action::Nothing),
            },
        }
    }
}

/// The handshake outcome that a trust decision leads to: an accepted chain
/// lets the handshake go on, a rejected one fails it with the reason.
pub fn handshake_result(decision: TrustDecision) -> (r: Result<(), HandshakeError>)
    ensures
        decision is Accepted ==> r is Ok,
        decision matches TrustDecision::Rejected(reason) ==> r == Err::<(), HandshakeError>(
            HandshakeError::TrustRejected(reason),
        ),
{
    match decision {
        TrustDecision::Accepted => Ok(()),
        TrustDecision::Rejected(reason) => Err(HandshakeError::TrustRejected(reason)),
    }
}

/// Classifies a failed handshake. A rejection by the local trust policy
/// takes precedence over how the transport then reported the failure.
pub fn classify_handshake_failure(failure: ConnectionFailure, rejection: Option<RejectReason>) -> (r: HandshakeError)
    ensures
        rejection matches Some(reason) ==> r == HandshakeError::TrustRejected(reason),
        rejection is None ==> r == match failure {
            ConnectionFailure::TimedOut => HandshakeError::Timeout,
            ConnectionFailure::VersionMismatch => HandshakeError::TransportMismatch,
            ConnectionFailure::TransportError => HandshakeError::TransportMismatch,
            ConnectionFailure::Aborted => HandshakeError::PeerAborted,
        },
{
    match rejection {
        Some(reason) => HandshakeError::TrustRejected(reason),
        None => match failure {
            ConnectionFailure::TimedOut => HandshakeError::Timeout,
            ConnectionFailure::VersionMismatch => HandshakeError::TransportMismatch,
            ConnectionFailure::TransportError => HandshakeError::TransportMismatch,
            ConnectionFailure::Aborted => HandshakeError::PeerAborted,
        },
    }
}

/// Closing an endpoint twice signals the peer once: the second close changes
/// nothing and does nothing, and the first signals exactly when a connection
/// was established.
pub proof fn lemma_close_is_idempotent(s: EndpointState)
    requires
        s.wf(),
    ensures
        ({
            let (s1, a1) = s.transition(Event::CloseRequested);
            let (s2, a2) = s1.transition(Event::CloseRequested);
            &&& s1.phase == Phase::Closed
            &&& s2 == s1
            &&& a2 == Action::Nothing
            &&& (a1 == Action::SignalClose <==> s.phase == Phase::Connected)
        }),
{
}

/// When two references to a fresh connection handle are released, the close
/// signal goes out once, on the second release, and a further release does
/// nothing.
pub proof fn lemma_last_release_signals_close_once(s: EndpointState)
    requires
        s.phase == Phase::Connected,
        s.connection_refs == 1,
    ensures
        ({
            let (s1, a1) = s.transition(Event::HandleCloned);
            let (s2, a2) = s1.transition(Event::HandleDropped);
            let (s3, a3) = s2.transition(Event::HandleDropped);
            let (s4, a4) = s3.transition(Event::HandleDropped);
            &&& s1.connection_refs == 2
            &&& a1 == Action::Nothing
            &&& a2 == Action::Nothing
            &&& a3 == Action::SignalClose
            &&& a4 == Action::Nothing
            &&& s3.connection_refs == 0
            &&& s4 == s3
        }),
{
}

/// Waiting for idleness with no connection live or draining returns at once.
pub proof fn lemma_wait_idle_without_connections(s: EndpointState)
    requires
        s.wf(),
        s.connection_refs == 0,
        !s.draining,
    ensures
        s.transition(Event::WaitIdleRequested) == (s, Action::Idle),
{
}

/// After a failed handshake a client endpoint is still usable: it can dial
/// again, and a handshake that then succeeds connects it.
pub proof fn lemma_client_can_retry_after_failure(s: EndpointState, err: HandshakeError)
    requires
        s.role == Role::Client,
        s.phase == Phase::Connecting,
    ensures
        ({
            let (s1, a1) = s.transition(Event::HandshakeFailed(err));
            let (s2, a2) = s1.transition(Event::ConnectRequested);
            let (s3, a3) = s2.transition(Event::HandshakeSucceeded);
            &&& a1 == Action::Fail(BootstrapError::Handshake(err))
            &&& s1.phase == Phase::Bound
            &&& a2 == Action::Dial
            &&& s2.phase == Phase::Connecting
            &&& a3 == Action::ReportConnected
            &&& s3.phase == Phase::Connected
        }),
{
}

/// Dropping a pending attempt aborts that attempt alone: a dialing client
/// goes back to its bound endpoint and can dial again, and a listening server
/// keeps listening.
pub proof fn lemma_cancelled_attempt_keeps_endpoint(s: EndpointState)
    requires
        s.phase == Phase::Connecting || s.phase == Phase::Listening,
    ensures
        s.phase == Phase::Connecting ==> ({
            let (s1, a1) = s.transition(Event::AttemptCancelled);
            &&& s1 == (EndpointState { phase: Phase::Bound, ..s })
            &&& a1 == Action::Nothing
            &&& s1.transition(Event::ConnectRequested).1 == Action::Dial
        }),
        s.phase == Phase::Listening ==> s.transition(Event::AttemptCancelled) == (s, Action::Nothing),
{
}

/// A failed bind fails that bind attempt with a bind error and closes only the
/// endpoint that tried it.
pub proof fn lemma_bind_failure(s: EndpointState)
    requires
        s.phase == Phase::Unbound,
    ensures
        s.transition(Event::BindFailed) == (
            EndpointState { phase: Phase::Closed, ..s },
            Action::Fail(BootstrapError::Bind),
        ),
{
}

/// A failed handshake never tears down a listening server: it is reported and
/// the server keeps listening. On the client it fails that attempt alone and
/// leaves the endpoint bound, with no retry.
pub proof fn lemma_failed_handshake_is_per_attempt(s: EndpointState, err: HandshakeError)
    requires
        s.phase == Phase::Listening || s.phase == Phase::Connecting,
    ensures
        s.phase == Phase::Listening ==> s.transition(Event::HandshakeFailed(err)) == (
            s,
            Action::ReportAttemptFailed(err),
        ),
        s.phase == Phase::Connecting ==> s.transition(Event::HandshakeFailed(err)) == (
            EndpointState { phase: Phase::Bound, ..s },
            Action::Fail(BootstrapError::Handshake(err)),
        ),
{
}

} // verus!
