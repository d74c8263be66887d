//! Trust policies: how a client decides whether the certificate chain a
//! server presents is acceptable.
use vstd::prelude::*;
use std::sync::Arc;
use rustls::ServerCertVerifier;

verus! {

#[verifier::external_type_specification]
#[verifier::external_body]
pub struct ExRootCertStore(rustls::RootCertStore);

#[verifier::external_type_specification]
#[verifier::external_body]
pub struct ExDnsName(webpki::DNSName);

/// Names whether webpki accepts the text as a reference DNS name (ASCII,
/// labels of letters, digits and hyphens, not an IP address).
pub uninterp spec fn is_dns_name(s: Seq<char>) -> bool;

/// Names whether webpki can read the DER certificate as a trust anchor.
pub uninterp spec fn is_trust_anchor(der: Seq<u8>) -> bool;

/// Names how many trust anchors a rustls root store holds.
pub uninterp spec fn store_len(s: rustls::RootCertStore) -> nat;

/// The certificates of `roots` that are usable as trust anchors, in order.
pub open spec fn usable_roots(roots: Seq<Vec<u8>>) -> Seq<Seq<u8>>
    decreases roots.len(),
{
    if roots.len() == 0 {
        Seq::empty()
    } else {
        let rest = usable_roots(roots.drop_last());
        if is_trust_anchor(roots.last()@) {
            rest.push(roots.last()@)
        } else {
            rest
        }
    }
}

/// Why a presented certificate chain was rejected.
#[derive(Clone, Debug, PartialEq, Eq)]
pub enum RejectReason {
    /// The server presented no certificate at all.
    NoCertificates,
    /// The server name is not a valid DNS name, so nothing can match it.
    InvalidServerName,
    /// No certificate of the trust store can serve as a root of trust.
    NoUsableRoots,
    /// Chain building, expiry or name matching failed; webpki's description.
    ChainInvalid(String),
}

/// The outcome of evaluating a certificate chain against a trust policy.
#[derive(Clone, Debug, PartialEq, Eq)]
pub enum TrustDecision {
    Accepted,
    Rejected(RejectReason),
}

/// How the client authenticates the server.
#[derive(Clone, Debug)]
pub enum TrustPolicy {
    /// Validate against these DER-encoded root certificates.
    Strict { roots: Vec<Vec<u8>> },
    /// Accept every chain. Removes authentication: for local testing only.
    InsecureSkipVerify,
}

/// Some certificate among `roots` is usable as a trust anchor.
pub open spec fn has_trust_anchor(roots: Seq<Vec<u8>>) -> bool {
    exists|i: int| 0 <= i < roots.len() && is_trust_anchor(#[trigger] roots[i]@)
}

/// What the strict policy decides, given the outcome of each check in the
/// order they are made: a chain is present, the name is valid, a root is
/// usable, and webpki's verification of the chain against those roots.
pub open spec fn strict_decision(
    chain_present: bool,
    name_valid: bool,
    roots_usable: bool,
    chain_check: Result<(), String>,
) -> TrustDecision {
    if !chain_present {
        TrustDecision::Rejected(RejectReason::NoCertificates)
    } else if !name_valid {
        TrustDecision::Rejected(RejectReason::InvalidServerName)
    } else if !roots_usable {
        TrustDecision::Rejected(RejectReason::NoUsableRoots)
    } else {
        match chain_check {
            Ok(()) => TrustDecision::Accepted,
            Err(reason) => TrustDecision::Rejected(RejectReason::ChainInvalid(reason)),
        }
    }
}

/// Under the strict policy a chain is accepted exactly when it was presented
/// for a valid server name, the store holds a usable root, and webpki
/// validated the chain against that store; every chain that webpki could not
/// validate is rejected.
pub proof fn lemma_strict_accepts_only_rooted_chains(
    chain_present: bool,
    name_valid: bool,
    roots_usable: bool,
    chain_check: Result<(), String>,
)
    ensures
        strict_decision(chain_present, name_valid, roots_usable, chain_check) is Accepted <==> (
        chain_present && name_valid && roots_usable && chain_check is Ok),
        chain_check is Err ==> strict_decision(chain_present, name_valid, roots_usable, chain_check) is Rejected,
{
}

/// The decision of the strict policy once webpki's verdict on the chain is
/// known.
pub fn decide_strict(
    chain_present: bool,
    name_valid: bool,
    roots_usable: bool,
    chain_check: Result<(), String>,
) -> (r: TrustDecision)
    ensures
        r == strict_decision(chain_present, name_valid, roots_usable, chain_check),
{
    if !chain_present {
        TrustDecision::Rejected(RejectReason::NoCertificates)
    } else if !name_valid {
        TrustDecision::Rejected(RejectReason::InvalidServerName)
    } else if !roots_usable {
        TrustDecision::Rejected(RejectReason::NoUsableRoots)
    } else {
        match chain_check {
            Ok(()) => TrustDecision::Accepted,
            Err(reason) => TrustDecision::Rejected(RejectReason::ChainInvalid(reason)),
        }
    }
}

/// A verifier that treats every certificate chain as valid. It makes
/// man-in-the-middle attacks possible; use it for local testing only.
pub struct SkipServerVerification;

impl SkipServerVerification {
    pub fn new() -> (r: Arc<Self>)
        ensures
            *r == SkipServerVerification,
    {
        Arc::new(SkipServerVerification)
    }

    /// Accepts whatever was presented, including an empty chain.
    pub fn verify_server_cert(&self, chain: &Vec<Vec<u8>>, server_name: &str) -> (r: TrustDecision)
        ensures
            r == TrustDecision::Accepted,
    {
        TrustDecision::Accepted
    }
}

/// Loads every usable certificate of `roots` into a rustls root store and
/// tells whether there was at least one.
fn load_roots(roots: &Vec<Vec<u8>>) -> (r: (rustls::RootCertStore, bool))
    ensures
        r.1 == has_trust_anchor(roots@),
        store_len(r.0) == usable_roots(roots@).len(),
{
    let mut store = empty_root_store();
    let mut any = false;
    let mut i: usize = 0;
    while i < roots.len()
        invariant
            i <= roots@.len(),
            any == exists|j: int| 0 <= j < i && is_trust_anchor(#[trigger] roots@[j]@),
            store_len(store) == usable_roots(roots@.subrange(0, i as int)).len(),
        decreases roots@.len() - i,
    {
        assert(roots@.subrange(0, i + 1).drop_last() =~= roots@.subrange(0, i as int));
        let added = add_root(&mut store, &roots[i]);
        if added {
            any = true;
        }
        i = i + 1;
    }
    assert(roots@.subrange(0, roots@.len() as int) =~= roots@);
    (store, any)
}

impl TrustPolicy {
    /// Evaluates the chain (leaf first) presented under `server_name`.
    /// The permissive policy accepts everything; the strict one rejects an
    /// empty chain, an invalid name and a store without usable roots before
    /// asking webpki, and accepts only when webpki validates the chain.
    pub fn verify(&self, chain: &Vec<Vec<u8>>, server_name: &str) -> (r: TrustDecision)
        ensures
            self is InsecureSkipVerify ==> r == TrustDecision::Accepted,
            self matches TrustPolicy::Strict { roots } ==> {
                let present = chain@.len() > 0;
                let valid = is_dns_name(server_name@);
                let usable = has_trust_anchor(roots@);
                &&& !present ==> r == TrustDecision::Rejected(RejectReason::NoCertificates)
                &&& present && !valid ==> r == TrustDecision::Rejected(RejectReason::InvalidServerName)
                &&& present && valid && !usable ==> r == TrustDecision::Rejected(RejectReason::NoUsableRoots)
                &&& present && valid && usable ==> (r is Accepted || r matches TrustDecision::Rejected(
                    RejectReason::ChainInvalid(_),
                ))
                &&& exists|check: Result<(), String>|
                    #[trigger] strict_decision(present, valid, usable, check) == r
            },
    {
        match self {
            TrustPolicy::InsecureSkipVerify => {
                let verifier = SkipServerVerification::new();
                verifier.verify_server_cert(chain, server_name)
            },
            TrustPolicy::Strict { roots } => {
                if chain.len() == 0 {
                    let r = decide_strict(false, false, false, Ok(()));
                    assert(strict_decision(
                        chain@.len() > 0,
                        is_dns_name(server_name@),
                        has_trust_anchor(roots@),
                        Ok(()),
                    ) == r);
                    return r;
                }
                let name = match dns_name_of(server_name) {
                    Some(n) => n,
                    None => {
                        let r = decide_strict(true, false, false, Ok(()));
                        assert(strict_decision(
                            chain@.len() > 0,
                            is_dns_name(server_name@),
                            has_trust_anchor(roots@),
                            Ok(()),
                        ) == r);
                        return r;
                    },
                };
                let (store, any_usable) = load_roots(roots);
                if !any_usable {
                    let r = decide_strict(true, true, false, Ok(()));
                    assert(strict_decision(
                        chain@.len() > 0,
                        is_dns_name(server_name@),
                        has_trust_anchor(roots@),
                        Ok(()),
                    ) == r);
                    return r;
                }
                let check = verify_chain(&store, chain, &name);
                let r = decide_strict(true, true, true, check);
                assert(strict_decision(
                    chain@.len() > 0,
                    is_dns_name(server_name@),
                    has_trust_anchor(roots@),
                    check,
                ) == r);
                r
            },
        }
    }
}

/// Relies on `webpki::DNSNameRef::try_from_ascii_str`, which succeeds exactly
/// on valid DNS names; `to_owned` only copies the name.
#[verifier::external_body]
fn dns_name_of(name: &str) -> (r: Option<webpki::DNSName>)
    ensures
        r is Some <==> is_dns_name(name@),
{
    match webpki::DNSNameRef::try_from_ascii_str(name) {
        Ok(n) => Some(n.to_owned()),
        Err(_) => None,
    }
}

/// Relies on `rustls::RootCertStore::empty`: a store with no roots.
#[verifier::external_body]
fn empty_root_store() -> (r: rustls::RootCertStore)
    ensures
        store_len(r) == 0,
{
    rustls::RootCertStore::empty()
}

/// Relies on `rustls::RootCertStore::add`, which appends one trust anchor
/// (built from the certificate) exactly when webpki reads the certificate as
/// one, and otherwise leaves the store as it was.
#[verifier::external_body]
fn add_root(store: &mut rustls::RootCertStore, der: &Vec<u8>) -> (r: bool)
    ensures
        r == is_trust_anchor(der@),
        r ==> store_len(*final(store)) == store_len(*old(store)) + 1,
        !r ==> store_len(*final(store)) == store_len(*old(store)),
{
    store.add(&rustls::Certificate(der.clone())).is_ok()
}

/// Relies on `rustls::WebPKIVerifier::verify_server_cert`: builds a path from
/// the leaf (first) through the other certificates to a root of `store`,
/// checks validity at the current time and matches the leaf against `name`.
/// An empty chain is refused, and so is every chain when the store holds no
/// root, since no path can end in one.
#[verifier::external_body]
fn verify_chain(store: &rustls::RootCertStore, chain: &Vec<Vec<u8>>, name: &webpki::DNSName) -> (r: Result<(), String>)
    ensures
        chain@.len() == 0 ==> r is Err,
        store_len(*store) == 0 ==> r is Err,
{
    let certs: Vec<rustls::Certificate> = chain.iter().map(|c| rustls::Certificate(c.clone())).collect();
    rustls::WebPKIVerifier::new()
        .verify_server_cert(store, &certs, name.as_ref(), &[])
        .map(|_| ())
        .map_err(|e| format!("{:?}", e))
}

} // verus!
