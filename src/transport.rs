//! Transport parameters shared by both endpoint roles, and their conversion
//! into quinn's `TransportConfig`.
use vstd::prelude::*;

verus! {

/// Largest value a QUIC variable-length integer can carry (2^62 - 1).
pub const VARINT_MAX: u64 = 4611686018427387903;

/// Default cap on concurrent bidirectional streams.
pub const DEFAULT_MAX_BIDI_STREAMS: u64 = 100;

/// Default idle timeout, in milliseconds.
pub const DEFAULT_IDLE_TIMEOUT_MS: u64 = 10000;

#[verifier::external_type_specification]
#[verifier::external_body]
pub struct ExTransportConfig(quinn::TransportConfig);

/// Immutable transport parameters. An idle timeout of `None` never times out.
#[derive(Clone, Copy, Debug, PartialEq, Eq, Structural)]
pub struct TransportParameters {
    pub max_uni_streams: u64,
    pub max_bidi_streams: u64,
    pub idle_timeout_ms: Option<u64>,
}

/// Why a set of transport parameters could not become a transport configuration.
#[derive(Clone, Copy, Debug, PartialEq, Eq, Structural)]
pub enum TransportError {
    /// A stream limit or the idle timeout exceeds `VARINT_MAX`.
    OutOfBounds,
}

impl TransportParameters {
    /// Every value fits the wire encoding of a QUIC transport parameter.
    pub open spec fn in_bounds(&self) -> bool {
        &&& self.max_uni_streams <= VARINT_MAX
        &&& self.max_bidi_streams <= VARINT_MAX
        &&& match self.idle_timeout_ms {
            Some(ms) => ms <= VARINT_MAX,
            None => true,
        }
    }

    /// Builds quinn's transport configuration from these parameters; fails
    /// exactly when one of them is out of bounds.
    pub fn to_transport_config(&self) -> (r: Result<TransportSettings, TransportError>)
        ensures
            r is Ok <==> self.in_bounds(),
            r matches Ok(t) ==> t@ == *self,
            r is Err ==> r == Err::<TransportSettings, TransportError>(TransportError::OutOfBounds),
    {
        let mut cfg = new_transport_settings();
        if !set_max_uni_streams(&mut cfg, self.max_uni_streams) {
            return Err(TransportError::OutOfBounds);
        }
        if !set_max_bidi_streams(&mut cfg, self.max_bidi_streams) {
            return Err(TransportError::OutOfBounds);
        }
        if !set_max_idle_timeout(&mut cfg, self.idle_timeout_ms) {
            return Err(TransportError::OutOfBounds);
        }
        Ok(cfg)
    }
}

/// quinn's transport configuration together with the parameters it was set
/// to; the setters below keep the two in step.
pub struct TransportSettings {
    pub(crate) config: quinn::TransportConfig,
    pub(crate) params: TransportParameters,
}

impl View for TransportSettings {
    type V = TransportParameters;

    /// The parameters the configuration was set to.
    closed spec fn view(&self) -> TransportParameters {
        self.params
    }
}

impl TransportSettings {
    /// The parameters the configuration was set to.
    pub fn params(&self) -> (r: TransportParameters)
        ensures
            r == self@,
    {
        self.params
    }

    /// quinn's transport configuration, for an endpoint to use.
    pub fn into_config(self) -> quinn::TransportConfig {
        self.config
    }
}

/// Unidirectional streams disabled, 100 bidirectional streams, a ten second
/// idle timeout.
pub open spec fn default_params() -> TransportParameters {
    TransportParameters {
        max_uni_streams: 0,
        max_bidi_streams: DEFAULT_MAX_BIDI_STREAMS,
        idle_timeout_ms: Some(DEFAULT_IDLE_TIMEOUT_MS),
    }
}

impl Default for TransportParameters {
    /// Unidirectional streams disabled, 100 bidirectional streams, a ten
    /// second idle timeout.
    fn default() -> (r: Self)
        ensures
            r.max_uni_streams == 0,
            r.max_bidi_streams == DEFAULT_MAX_BIDI_STREAMS,
            r.idle_timeout_ms == Some(DEFAULT_IDLE_TIMEOUT_MS),
            r == default_params(),
    {
        TransportParameters {
            max_uni_streams: 0,
            max_bidi_streams: DEFAULT_MAX_BIDI_STREAMS,
            idle_timeout_ms: Some(DEFAULT_IDLE_TIMEOUT_MS),
        }
    }
}

/// Relies on `TransportConfig::default` from quinn-proto: 100 streams of each
/// kind and a ten second idle timeout.
#[verifier::external_body]
fn new_transport_settings() -> (r: TransportSettings)
    ensures
        r@ == (TransportParameters {
            max_uni_streams: 100,
            max_bidi_streams: 100,
            idle_timeout_ms: Some(10000),
        }),
{
    TransportSettings {
        config: quinn::TransportConfig::default(),
        params: TransportParameters { max_uni_streams: 100, max_bidi_streams: 100, idle_timeout_ms: Some(10000) },
    }
}

/// Relies on `TransportConfig::max_concurrent_uni_streams`: the value is
/// converted to a `VarInt`, which succeeds exactly up to 2^62 - 1; on failure
/// the configuration is left as it was.
#[verifier::external_body]
fn set_max_uni_streams(cfg: &mut TransportSettings, value: u64) -> (r: bool)
    ensures
        r <==> value <= VARINT_MAX,
        r ==> final(cfg)@ == (TransportParameters { max_uni_streams: value, ..old(cfg)@ }),
        !r ==> final(cfg)@ == old(cfg)@,
{
    let ok = cfg.config.max_concurrent_uni_streams(value).is_ok();
    if ok {
        cfg.params.max_uni_streams = value;
    }
    ok
}

/// Relies on `TransportConfig::max_concurrent_bidi_streams`: the value is
/// converted to a `VarInt`, which succeeds exactly up to 2^62 - 1; on failure
/// the configuration is left as it was.
#[verifier::external_body]
fn set_max_bidi_streams(cfg: &mut TransportSettings, value: u64) -> (r: bool)
    ensures
        r <==> value <= VARINT_MAX,
        r ==> final(cfg)@ == (TransportParameters { max_bidi_streams: value, ..old(cfg)@ }),
        !r ==> final(cfg)@ == old(cfg)@,
{
    let ok = cfg.config.max_concurrent_bidi_streams(value).is_ok();
    if ok {
        cfg.params.max_bidi_streams = value;
    }
    ok
}

/// Relies on `TransportConfig::max_idle_timeout`: it succeeds exactly when the
/// timeout in milliseconds is at most 2^62 - 1, and otherwise changes nothing.
#[verifier::external_body]
fn set_max_idle_timeout(cfg: &mut TransportSettings, ms: Option<u64>) -> (r: bool)
    ensures
        r <==> match ms {
            Some(v) => v <= VARINT_MAX,
            None => true,
        },
        r ==> final(cfg)@ == (TransportParameters { idle_timeout_ms: ms, ..old(cfg)@ }),
        !r ==> final(cfg)@ == old(cfg)@,
{
    let ok = cfg.config.max_idle_timeout(ms.map(std::time::Duration::from_millis)).is_ok();
    if ok {
        cfg.params.idle_timeout_ms = ms;
    }
    ok
}

} // verus!
