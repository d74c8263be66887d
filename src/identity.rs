//! Self-signed certificate material for the listening endpoint.
use vstd::prelude::*;
use crate::server::signing_key_supported;

verus! {

#[verifier::external_type_specification]
#[verifier::external_body]
pub struct ExRcgenCertificate(rcgen::Certificate);

#[verifier::external_type_specification]
#[verifier::external_body]
pub struct ExRcgenError(rcgen::RcgenError);

/// Names the DNS names in the subject alternative name extension of a DER
/// certificate, in the order they are written.
pub uninterp spec fn der_dns_names(der: Seq<u8>) -> Seq<Seq<char>>;

/// The text of each name.
pub open spec fn names_view(names: Seq<String>) -> Seq<Seq<char>> {
    names.map_values(|s: String| s@)
}

/// Names whether a DER certificate carries the public key of the PKCS#8 DER
/// key pair `key`, names its own subject as issuer, and is signed with that key.
pub uninterp spec fn self_signed_with(cert: Seq<u8>, key: Seq<u8>) -> bool;

/// Names the validity window of a DER certificate: its not-before and
/// not-after times, in seconds since the Unix epoch.
pub uninterp spec fn der_validity(cert: Seq<u8>) -> (int, int);

/// Start of a generated certificate's validity: 1975-01-01 00:00 UTC.
pub const VALID_FROM: u64 = 157766400;

/// End of a generated certificate's validity: 4096-01-01 00:00 UTC.
pub const VALID_UNTIL: u64 = 67090118400;

/// A certificate made by rcgen, the DNS names it was made for, and its key
/// pair in DER once that has been taken out.
struct SelfSignedCertificate {
    cert: rcgen::Certificate,
    names: Vec<String>,
    key_der: Option<Vec<u8>>,
}

/// A certificate and its private key, both DER-encoded, together with the
/// DNS names the certificate was issued for.
#[derive(Clone, Debug)]
pub struct Identity {
    pub certificate: Vec<u8>,
    pub private_key: Vec<u8>,
    pub subject_names: Vec<String>,
}

/// Key generation or certificate encoding failed; the cryptographic backend
/// is unusable, so there is no point in retrying.
#[derive(Clone, Copy, Debug, PartialEq, Eq, Structural)]
pub enum CertificateGenerationError {
    KeyGeneration,
    Encoding,
}

/// Generates a fresh self-signed identity whose certificate carries each of
/// `subject_names` as a DNS subject alternative name.
pub fn generate_identity(subject_names: &Vec<String>) -> (r: Result<Identity, CertificateGenerationError>)
    requires
        subject_names@.len() > 0,
    ensures
        r matches Ok(id) ==> {
            &&& id.subject_names@ == subject_names@
            &&& der_dns_names(id.certificate@) == names_view(subject_names@)
            &&& self_signed_with(id.certificate@, id.private_key@)
            &&& signing_key_supported(id.private_key@)
            &&& der_validity(id.certificate@) == (VALID_FROM as int, VALID_UNTIL as int)
        },
{
    let mut cert = match self_signed_certificate(subject_names.clone()) {
        Ok(c) => c,
        Err(_) => return Err(CertificateGenerationError::KeyGeneration),
    };
    let private_key = private_key_der(&mut cert);
    let certificate = match certificate_der(&cert) {
        Ok(der) => der,
        Err(_) => return Err(CertificateGenerationError::Encoding),
    };
    Ok(Identity { certificate, private_key, subject_names: subject_names.clone() })
}

/// Relies on `rcgen::generate_simple_self_signed`: a new key pair and a
/// certificate whose subject alternative names are the given DNS names.
#[verifier::external_body]
fn self_signed_certificate(names: Vec<String>) -> (r: Result<SelfSignedCertificate, rcgen::RcgenError>)
    ensures
        r matches Ok(c) ==> c.names@ == names@ && c.key_der is None,
{
    rcgen::generate_simple_self_signed(names.clone()).map(|cert| SelfSignedCertificate { cert, names, key_der: None })
}

/// Relies on `rcgen::Certificate::serialize_der`: the certificate in DER,
/// issued by itself and signed with its own key pair; its subject alternative
/// name extension lists each name as a UTF-8 DNS name, in the order given;
/// it is valid from rcgen's default 1975-01-01 to 4096-01-01.
#[verifier::external_body]
fn certificate_der(c: &SelfSignedCertificate) -> (r: Result<Vec<u8>, rcgen::RcgenError>)
    ensures
        r matches Ok(der) ==> {
            &&& der_dns_names(der@) == names_view(c.names@)
            &&& der_validity(der@) == (VALID_FROM as int, VALID_UNTIL as int)
            &&& c.key_der matches Some(k) ==> self_signed_with(der@, k@)
        },
{
    c.cert.serialize_der()
}

/// Relies on `rcgen::Certificate::serialize_private_key_der`: the key pair in
/// PKCS#8 DER. It panics only for remote key pairs, which
/// `generate_simple_self_signed` never makes. That function makes an ECDSA
/// P-256 key pair (PKCS#8), from which rustls builds a signing key. The key is
/// kept beside the certificate.
#[verifier::external_body]
fn private_key_der(c: &mut SelfSignedCertificate) -> (r: Vec<u8>)
    ensures
        signing_key_supported(r@),
        final(c).names@ == old(c).names@,
        final(c).key_der == Some(r),
{
    let key = c.cert.serialize_private_key_der();
    c.key_der = Some(key.clone());
    key
}

} // verus!
