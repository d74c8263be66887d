//! Configuration of the listening endpoint: its identity bound to the
//! transport parameters.
use vstd::prelude::*;
use crate::identity::{
    der_dns_names, der_validity, generate_identity, names_view, self_signed_with, CertificateGenerationError,
    Identity, VALID_FROM, VALID_UNTIL,
};
use crate::transport::{default_params, TransportError, TransportParameters, TransportSettings};

verus! {

/// quinn's server configuration. It is generic over a session trait of
/// quinn's own, so the value is held here opaquely.
#[verifier::external_body]
pub struct QuinnServerConfig {
    pub inner: quinn::ServerConfig,
}

/// A server configuration together with what was put into it: the
/// transport parameters, and the certificate and private key (DER) that the
/// server presents. The wrappers below keep the two in step.
pub struct ServerEndpointConfig {
    pub(crate) quinn: QuinnServerConfig,
    pub(crate) transport: TransportParameters,
    pub(crate) certificate: Vec<u8>,
    pub(crate) private_key: Vec<u8>,
}

impl ServerEndpointConfig {
    /// The transport parameters every accepted connection uses.
    pub closed spec fn transport_params(&self) -> TransportParameters {
        self.transport
    }

    /// The certificate (DER) the server presents.
    pub closed spec fn presented_certificate(&self) -> Seq<u8> {
        self.certificate@
    }

    /// The private key (DER) the server proves its certificate with.
    pub closed spec fn signing_key(&self) -> Seq<u8> {
        self.private_key@
    }

    /// The transport parameters every accepted connection uses.
    pub fn transport(&self) -> (r: TransportParameters)
        ensures
            r == self.transport_params(),
    {
        self.transport
    }

    /// The certificate (DER) the server presents.
    pub fn certificate(&self) -> (r: &Vec<u8>)
        ensures
            r@ == self.presented_certificate(),
    {
        &self.certificate
    }

    /// The private key (DER) the server proves its certificate with.
    pub fn private_key(&self) -> (r: &Vec<u8>)
        ensures
            r@ == self.signing_key(),
    {
        &self.private_key
    }

    /// quinn's server configuration, for an endpoint to listen with.
    pub fn into_quinn(self) -> QuinnServerConfig {
        self.quinn
    }
}

/// Names whether rustls can build a signing key from the given DER private
/// key (RSA, ECDSA or Ed25519).
pub uninterp spec fn signing_key_supported(key: Seq<u8>) -> bool;

/// Why the listening endpoint could not be configured.
#[derive(Clone, Copy, Debug, PartialEq, Eq, Structural)]
pub enum ServerSetupError {
    Certificate(CertificateGenerationError),
    Transport(TransportError),
    /// rustls found no usable signing key in the identity's private key.
    KeyRejected,
}

/// Builds the server configuration that every accepted connection uses: the
/// transport parameters, and the identity presented during the handshake.
pub fn build_server_config(identity: &Identity, transport: &TransportParameters) -> (r: Result<
    ServerEndpointConfig,
    ServerSetupError,
>)
    ensures
        r is Ok <==> transport.in_bounds() && signing_key_supported(identity.private_key@),
        !transport.in_bounds() ==> r matches Err(ServerSetupError::Transport(TransportError::OutOfBounds)),
        transport.in_bounds() && !signing_key_supported(identity.private_key@) ==> r matches Err(
            ServerSetupError::KeyRejected,
        ),
        r matches Ok(c) ==> {
            &&& c.transport_params() == *transport
            &&& c.presented_certificate() == identity.certificate@
            &&& c.signing_key() == identity.private_key@
        },
{
    let transport_config = match transport.to_transport_config() {
        Ok(t) => t,
        Err(e) => return Err(ServerSetupError::Transport(e)),
    };
    let mut config = server_config_with_transport(transport_config);
    if !set_single_certificate(&mut config, &identity.certificate, &identity.private_key) {
        return Err(ServerSetupError::KeyRejected);
    }
    Ok(config)
}

/// Builds the listening endpoint's configuration, with the default transport
/// parameters, from the outcome of generating its identity; returns it with
/// the certificate in DER.
pub fn server_setup_from(identity: Result<Identity, CertificateGenerationError>) -> (r: Result<
    (ServerEndpointConfig, Vec<u8>),
    ServerSetupError,
>)
    ensures
        identity matches Err(e) ==> r matches Err(ServerSetupError::Certificate(f)) && f == e,
        identity is Ok ==> (r is Ok <==> signing_key_supported(identity->Ok_0.private_key@)),
        identity is Ok && r is Err ==> r matches Err(ServerSetupError::KeyRejected),
        r matches Ok((c, der)) ==> {
            &&& identity is Ok
            &&& der@ == identity->Ok_0.certificate@
            &&& c.presented_certificate() == identity->Ok_0.certificate@
            &&& c.signing_key() == identity->Ok_0.private_key@
            &&& c.transport_params() == default_params()
        },
{
    let identity = match identity {
        Ok(id) => id,
        Err(e) => return Err(ServerSetupError::Certificate(e)),
    };
    let transport = TransportParameters::default();
    let config = match build_server_config(&identity, &transport) {
        Ok(c) => c,
        Err(e) => return Err(e),
    };
    Ok((config, identity.certificate))
}

/// Generates an identity for `localhost` and builds the server configuration
/// from it with the default transport parameters (unidirectional streams
/// disabled). Returns the configuration and the certificate it presents.
pub fn configure_server() -> (r: Result<(ServerEndpointConfig, Vec<u8>), ServerSetupError>)
    ensures
        r matches Ok((c, der)) ==> {
            &&& c.presented_certificate() == der@
            &&& der_dns_names(der@) == seq!["localhost"@]
            &&& self_signed_with(der@, c.signing_key())
            &&& der_validity(der@) == (VALID_FROM as int, VALID_UNTIL as int)
            &&& c.transport_params() == default_params()
            &&& c.transport_params().max_uni_streams == 0
        },
        r is Err ==> r matches Err(ServerSetupError::Certificate(_)),
{
    let mut names: Vec<String> = Vec::new();
    let host = String::from_str("localhost");
    names.push(host);
    proof {
        reveal_strlit("localhost");
        assert(names_view(names@) =~= seq!["localhost"@]);
    }
    server_setup_from(generate_identity(&names))
}

/// Relies on quinn's `ServerConfig::default` (fresh random handshake-token
/// key, no certificate yet), with its `transport` field replaced.
#[verifier::external_body]
fn server_config_with_transport(transport: TransportSettings) -> (r: ServerEndpointConfig)
    ensures
        r.transport_params() == transport@,
        r.presented_certificate().len() == 0,
        r.signing_key().len() == 0,
{
    let mut inner = quinn::ServerConfig::default();
    inner.transport = std::sync::Arc::new(transport.config);
    ServerEndpointConfig {
        quinn: QuinnServerConfig { inner },
        transport: transport.params,
        certificate: Vec::new(),
        private_key: Vec::new(),
    }
}

/// Relies on quinn's `ServerConfig::certificate`, which hands the chain (here
/// the one certificate) and key to rustls's `set_single_cert`; that fails
/// exactly when no signing key can be built from the private key, and then
/// changes nothing. `Certificate::from_der` and `PrivateKey::from_der` only
/// wrap the bytes and never fail.
#[verifier::external_body]
fn set_single_certificate(config: &mut ServerEndpointConfig, cert_der: &Vec<u8>, key_der: &Vec<u8>) -> (r: bool)
    ensures
        r == signing_key_supported(key_der@),
        final(config).transport_params() == old(config).transport_params(),
        r ==> final(config).presented_certificate() == cert_der@ && final(config).signing_key() == key_der@,
        !r ==> final(config).presented_certificate() == old(config).presented_certificate() && final(config).signing_key()
            == old(config).signing_key(),
{
    let ok = match (quinn::Certificate::from_der(cert_der), quinn::PrivateKey::from_der(key_der)) {
        (Ok(cert), Ok(key)) => config.quinn.inner.certificate(quinn::CertificateChain::from_certs(vec![cert]), key).is_ok(),
        _ => false,
    };
    if ok {
        config.certificate = cert_der.clone();
        config.private_key = key_der.clone();
    }
    ok
}

} // verus!
