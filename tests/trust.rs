use quic_bootstrap::bootstrap::{classify_handshake_failure, handshake_result, ConnectionFailure, HandshakeError};
use quic_bootstrap::identity::generate_identity;
use quic_bootstrap::trust::{decide_strict, RejectReason, SkipServerVerification, TrustDecision, TrustPolicy};

fn localhost() -> Vec<String> {
    vec!["localhost".to_string()]
}

#[test]
fn permissive_policy_accepts_everything() {
    let p = TrustPolicy::InsecureSkipVerify;
    assert_eq!(p.verify(&vec![], "localhost"), TrustDecision::Accepted);
    assert_eq!(p.verify(&vec![vec![0xde, 0xad]], "not a name!"), TrustDecision::Accepted);
    assert_eq!(p.verify(&vec![vec![]], ""), TrustDecision::Accepted);
}

#[test]
fn skip_server_verification_accepts() {
    let v = SkipServerVerification::new();
    assert_eq!(v.verify_server_cert(&vec![], "localhost"), TrustDecision::Accepted);
    assert_eq!(v.verify_server_cert(&vec![vec![1, 2, 3]], "x"), TrustDecision::Accepted);
}

#[test]
fn strict_policy_with_empty_store_rejects() {
    let id = generate_identity(&localhost()).unwrap();
    let p = TrustPolicy::Strict { roots: vec![] };
    assert_eq!(
        p.verify(&vec![id.certificate.clone()], "localhost"),
        TrustDecision::Rejected(RejectReason::NoUsableRoots)
    );
}

#[test]
fn strict_policy_with_unparsable_roots_rejects() {
    let id = generate_identity(&localhost()).unwrap();
    let p = TrustPolicy::Strict { roots: vec![vec![1, 2, 3], vec![]] };
    assert_eq!(
        p.verify(&vec![id.certificate], "localhost"),
        TrustDecision::Rejected(RejectReason::NoUsableRoots)
    );
}

#[test]
fn strict_policy_rejects_empty_chain() {
    let id = generate_identity(&localhost()).unwrap();
    let p = TrustPolicy::Strict { roots: vec![id.certificate] };
    assert_eq!(p.verify(&vec![], "localhost"), TrustDecision::Rejected(RejectReason::NoCertificates));
}

#[test]
fn strict_policy_rejects_invalid_server_name() {
    let id = generate_identity(&localhost()).unwrap();
    let p = TrustPolicy::Strict { roots: vec![id.certificate.clone()] };
    for name in ["not a name!", "", "127.0.0.1"].iter() {
        assert_eq!(
            p.verify(&vec![id.certificate.clone()], name),
            TrustDecision::Rejected(RejectReason::InvalidServerName)
        );
    }
}

#[test]
fn strict_policy_rejects_chain_from_another_root() {
    let server = generate_identity(&localhost()).unwrap();
    let other = generate_identity(&localhost()).unwrap();
    let p = TrustPolicy::Strict { roots: vec![other.certificate] };
    let d = p.verify(&vec![server.certificate], "localhost");
    assert!(matches!(d, TrustDecision::Rejected(RejectReason::ChainInvalid(_))));
}

#[test]
fn strict_policy_rejects_garbage_leaf() {
    let root = generate_identity(&localhost()).unwrap();
    let p = TrustPolicy::Strict { roots: vec![root.certificate] };
    let d = p.verify(&vec![vec![0x30, 0x03, 0x02, 0x01, 0x00]], "localhost");
    assert!(matches!(d, TrustDecision::Rejected(RejectReason::ChainInvalid(_))));
}

#[test]
fn decide_strict_follows_check_order() {
    assert_eq!(decide_strict(false, true, true, Ok(())), TrustDecision::Rejected(RejectReason::NoCertificates));
    assert_eq!(decide_strict(true, false, true, Ok(())), TrustDecision::Rejected(RejectReason::InvalidServerName));
    assert_eq!(decide_strict(true, true, false, Ok(())), TrustDecision::Rejected(RejectReason::NoUsableRoots));
    assert_eq!(decide_strict(true, true, true, Ok(())), TrustDecision::Accepted);
    assert_eq!(
        decide_strict(true, true, true, Err("UnknownIssuer".to_string())),
        TrustDecision::Rejected(RejectReason::ChainInvalid("UnknownIssuer".to_string()))
    );
}

#[test]
fn rejected_trust_fails_the_handshake() {
    assert_eq!(handshake_result(TrustDecision::Accepted), Ok(()));
    assert_eq!(
        handshake_result(TrustDecision::Rejected(RejectReason::NoUsableRoots)),
        Err(HandshakeError::TrustRejected(RejectReason::NoUsableRoots))
    );
}

#[test]
fn strict_policy_accepts_chain_rooted_in_store() {
    let id = generate_identity(&localhost()).unwrap();
    let p = TrustPolicy::Strict { roots: vec![id.certificate.clone()] };
    assert_eq!(p.verify(&vec![id.certificate], "localhost"), TrustDecision::Accepted);
}

#[test]
fn strict_policy_rejects_name_not_in_certificate() {
    let id = generate_identity(&localhost()).unwrap();
    let p = TrustPolicy::Strict { roots: vec![id.certificate.clone()] };
    let d = p.verify(&vec![id.certificate], "example.test");
    assert!(matches!(d, TrustDecision::Rejected(RejectReason::ChainInvalid(_))));
}

#[test]
fn handshake_failures_are_classified() {
    assert_eq!(classify_handshake_failure(ConnectionFailure::TimedOut, None), HandshakeError::Timeout);
    assert_eq!(classify_handshake_failure(ConnectionFailure::VersionMismatch, None), HandshakeError::TransportMismatch);
    assert_eq!(classify_handshake_failure(ConnectionFailure::TransportError, None), HandshakeError::TransportMismatch);
    assert_eq!(classify_handshake_failure(ConnectionFailure::Aborted, None), HandshakeError::PeerAborted);
    assert_eq!(
        classify_handshake_failure(ConnectionFailure::TransportError, Some(RejectReason::NoUsableRoots)),
        HandshakeError::TrustRejected(RejectReason::NoUsableRoots)
    );
}
