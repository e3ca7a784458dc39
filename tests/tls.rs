use mem_blob_store::tls::{
    parse_error, verification_error, verify_presented_certs, CertVerifyError, CertificateProblem,
    Libp2pCertificateVerifier, PeerId, SignatureScheme,
};

fn peer(b: u8) -> PeerId {
    PeerId { key: [b; 32] }
}

#[test]
fn verifier_without_expected_peer_accepts_any() {
    let v = Libp2pCertificateVerifier::new();
    assert_eq!(v.verify_server_cert(0, Ok(peer(1))), Ok(()));
    assert!(v.offer_client_auth());
}

#[test]
fn verifier_with_expected_peer() {
    let v = Libp2pCertificateVerifier::with_remote_peer_id(Some(peer(1)));
    assert_eq!(v.verify_server_cert(0, Ok(peer(1))), Ok(()));
    assert_eq!(v.verify_server_cert(0, Ok(peer(2))), Err(CertVerifyError::PeerMismatch));
    assert_eq!(
        v.verify_server_cert(1, Ok(peer(1))),
        Err(CertVerifyError::NotExactlyOneCertificate)
    );
    assert_eq!(
        v.verify_server_cert(0, Err(CertVerifyError::BadEncoding)),
        Err(CertVerifyError::BadEncoding)
    );
    assert_eq!(v.verify_client_cert(0, Ok(peer(9))), Ok(()));
    assert_eq!(
        v.verify_client_cert(2, Ok(peer(9))),
        Err(CertVerifyError::NotExactlyOneCertificate)
    );
}

#[test]
fn presented_chain_must_be_single() {
    assert!(verify_presented_certs(0, Ok(peer(3))).unwrap().same(&peer(3)));
    assert_eq!(
        verify_presented_certs(1, Ok(peer(3))).unwrap_err(),
        CertVerifyError::NotExactlyOneCertificate
    );
}

#[test]
fn schemes_in_order() {
    assert_eq!(
        Libp2pCertificateVerifier::verification_schemes(),
        vec![
            SignatureScheme::EcdsaNistp384Sha384,
            SignatureScheme::EcdsaNistp256Sha256,
            SignatureScheme::Ed25519
        ]
    );
}

#[test]
fn certificate_problems_map_to_errors() {
    assert_eq!(parse_error(CertificateProblem::BadDer), CertVerifyError::BadEncoding);
    assert_eq!(parse_error(CertificateProblem::Other), CertVerifyError::Other);
    assert_eq!(
        verification_error(CertificateProblem::InvalidSignatureForPublicKey),
        CertVerifyError::BadSignature
    );
    assert_eq!(
        verification_error(CertificateProblem::UnsupportedSignatureAlgorithmForPublicKey),
        CertVerifyError::BadSignature
    );
    assert_eq!(verification_error(CertificateProblem::BadDer), CertVerifyError::Other);
}

#[test]
fn offered_schemes_and_subjects() {
    let v = Libp2pCertificateVerifier::new();
    assert_eq!(v.supported_verify_schemes(), Libp2pCertificateVerifier::verification_schemes());
    assert!(v.client_auth_root_subjects().is_empty());
}
