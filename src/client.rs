//! Configuration of the dialing endpoint: a trust policy bound to the
//! transport parameters.
use vstd::prelude::*;
use crate::transport::TransportParameters;
use crate::trust::TrustPolicy;

verus! {

/// The default configuration of every outbound connection of a client
/// endpoint. The policy is always named by the caller: there is no default,
/// so the permissive one is only ever an explicit choice.
#[derive(Clone, Debug)]
pub struct ClientEndpointConfig {
    pub trust: TrustPolicy,
    pub transport: TransportParameters,
}

/// Binds the trust policy to the transport parameters.
pub fn build_client_config(trust: TrustPolicy, transport: TransportParameters) -> (r: ClientEndpointConfig)
    ensures
        r.trust == trust,
        r.transport == transport,
{
    ClientEndpointConfig { trust, transport }
}

} // verus!
