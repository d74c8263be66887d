//! Bootstrap of one QUIC connection between a listening server and a dialing
//! client: certificate material, trust policy, endpoint configuration and the
//! per-role connection state machine.
pub mod bootstrap;
pub mod client;
pub mod identity;
pub mod server;
pub mod transport;
pub mod trust;
