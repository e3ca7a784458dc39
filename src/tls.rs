//! Decisions of the libp2p TLS certificate verifier: one self-signed
//! certificate, TLS 1.3 signature schemes, and a match against the peer
//! that a client meant to reach. Parsing the certificate is left to the
//! caller, who hands in its outcome.
use vstd::prelude::*;

verus! {

/// The identity of a peer: the 32 bytes of its public key.
#[derive(Clone, Copy, Debug)]
pub struct PeerId {
    pub key: [u8; 32],
}

impl View for PeerId {
    type V = Seq<u8>;

    open spec fn view(&self) -> Seq<u8> {
        self.key@
    }
}

impl PeerId {
    /// Whether two peer ids hold the same key.
    pub fn same(&self, other: &PeerId) -> (r: bool)
        ensures
            r == (self@ == other@),
    {
        crate::hash::Hash::from_bytes(self.key).same(&crate::hash::Hash::from_bytes(other.key))
    }
}

/// The signature schemes the verifier accepts.
#[derive(Clone, Copy, Debug, PartialEq, Eq, Structural)]
pub enum SignatureScheme {
    EcdsaNistp384Sha384,
    EcdsaNistp256Sha256,
    Ed25519,
}

/// Why a certificate was refused.
#[derive(Clone, Copy, Debug, PartialEq, Eq, Structural)]
pub enum CertVerifyError {
    /// More than one certificate was presented.
    NotExactlyOneCertificate,
    /// The certificate is not valid DER.
    BadEncoding,
    /// A signature does not verify, or uses an unsupported algorithm.
    BadSignature,
    /// Another certificate failure.
    Other,
    /// The certificate's peer is not the one the client meant to reach.
    PeerMismatch,
}

/// What went wrong in parsing or checking a certificate.
#[derive(Clone, Copy, Debug, PartialEq, Eq, Structural)]
pub enum CertificateProblem {
    BadDer,
    InvalidSignatureForPublicKey,
    UnsupportedSignatureAlgorithm,
    UnsupportedSignatureAlgorithmForPublicKey,
    Other,
}

/// The error reported for a certificate that could not be parsed.
pub fn parse_error(p: CertificateProblem) -> (r: CertVerifyError)
    ensures
        p == CertificateProblem::BadDer ==> r == CertVerifyError::BadEncoding,
        p != CertificateProblem::BadDer ==> r == CertVerifyError::Other,
{
    match p {
        CertificateProblem::BadDer => CertVerifyError::BadEncoding,
        _ => CertVerifyError::Other,
    }
}

/// The error reported for a signature check that failed.
pub fn verification_error(p: CertificateProblem) -> (r: CertVerifyError)
    ensures
        p == CertificateProblem::InvalidSignatureForPublicKey || p
            == CertificateProblem::UnsupportedSignatureAlgorithm || p
            == CertificateProblem::UnsupportedSignatureAlgorithmForPublicKey ==> r
            == CertVerifyError::BadSignature,
        p == CertificateProblem::BadDer || p == CertificateProblem::Other ==> r
            == CertVerifyError::Other,
{
    match p {
        CertificateProblem::InvalidSignatureForPublicKey => CertVerifyError::BadSignature,
        CertificateProblem::UnsupportedSignatureAlgorithm
        | CertificateProblem::UnsupportedSignatureAlgorithmForPublicKey => CertVerifyError::BadSignature,
        _ => CertVerifyError::Other,
    }
}

/// Checks a presented chain: exactly one certificate, which parsed to
/// `parsed`. Gives the peer id it names.
pub fn verify_presented_certs(intermediates: usize, parsed: Result<PeerId, CertVerifyError>) -> (r: Result<PeerId, CertVerifyError>)
    ensures
        intermediates > 0 ==> r == Err::<PeerId, CertVerifyError>(
            CertVerifyError::NotExactlyOneCertificate,
        ),
        intermediates == 0 ==> r == parsed,
{
    if intermediates > 0 {
        return Err(CertVerifyError::NotExactlyOneCertificate);
    }
    parsed
}

/// The certificate verifier for libp2p's TLS 1.3 handshake.
#[derive(Debug)]
pub struct Libp2pCertificateVerifier {
    remote_peer_id: Option<PeerId>,
}

impl Libp2pCertificateVerifier {
    /// The peer the verifier expects, if any.
    pub closed spec fn expected(&self) -> Option<PeerId> {
        self.remote_peer_id
    }

    /// A verifier that accepts any peer.
    pub fn new() -> (r: Libp2pCertificateVerifier)
        ensures
            r.expected() is None,
    {
        Libp2pCertificateVerifier { remote_peer_id: None }
    }

    /// A verifier that accepts only `remote_peer_id`, where given.
    pub fn with_remote_peer_id(remote_peer_id: Option<PeerId>) -> (r: Libp2pCertificateVerifier)
        ensures
            r.expected() == remote_peer_id,
    {
        Libp2pCertificateVerifier { remote_peer_id }
    }

    /// The signature schemes handled, most preferred first.
    pub fn verification_schemes() -> (r: Vec<SignatureScheme>)
        ensures
            r@ == seq![
                SignatureScheme::EcdsaNistp384Sha384,
                SignatureScheme::EcdsaNistp256Sha256,
                SignatureScheme::Ed25519,
            ],
    {
        let r = vec![
            SignatureScheme::EcdsaNistp384Sha384,
            SignatureScheme::EcdsaNistp256Sha256,
            SignatureScheme::Ed25519,
        ];
        assert(r@ =~= seq![
            SignatureScheme::EcdsaNistp384Sha384,
            SignatureScheme::EcdsaNistp256Sha256,
            SignatureScheme::Ed25519,
        ]);
        r
    }

    /// The signature schemes offered to the peer: those handled.
    pub fn supported_verify_schemes(&self) -> (r: Vec<SignatureScheme>)
        ensures
            r@ == seq![
                SignatureScheme::EcdsaNistp384Sha384,
                SignatureScheme::EcdsaNistp256Sha256,
                SignatureScheme::Ed25519,
            ],
    {
        Self::verification_schemes()
    }

    /// No root subjects are named: certificates are self-signed.
    pub fn client_auth_root_subjects(&self) -> (r: Vec<Vec<u8>>)
        ensures
            r@.len() == 0,
    {
        Vec::new()
    }

    /// Client authentication is mandatory in libp2p.
    pub fn offer_client_auth(&self) -> (r: bool)
        ensures
            r,
    {
        true
    }

    /// Checks a server's chain, and that it names the expected peer.
    pub fn verify_server_cert(&self, intermediates: usize, parsed: Result<PeerId, CertVerifyError>) -> (r: Result<(), CertVerifyError>)
        ensures
            intermediates > 0 ==> r == Err::<(), CertVerifyError>(
                CertVerifyError::NotExactlyOneCertificate,
            ),
            intermediates == 0 && parsed is Err ==> r == Err::<(), CertVerifyError>(parsed->Err_0),
            intermediates == 0 && parsed is Ok ==> (r is Ok <==> (self.expected() is None
                || self.expected()->0@ == parsed->Ok_0@)),
            intermediates == 0 && parsed is Ok && r is Err ==> r == Err::<(), CertVerifyError>(
                CertVerifyError::PeerMismatch,
            ),
    {
        let peer = match verify_presented_certs(intermediates, parsed) {
            Ok(p) => p,
            Err(e) => return Err(e),
        };
        match &self.remote_peer_id {
            Some(expected) => {
                if !expected.same(&peer) {
                    return Err(CertVerifyError::PeerMismatch);
                }
            },
            None => {},
        }
        Ok(())
    }

    /// Checks a client's chain; any peer is accepted.
    pub fn verify_client_cert(&self, intermediates: usize, parsed: Result<PeerId, CertVerifyError>) -> (r: Result<(), CertVerifyError>)
        ensures
            intermediates > 0 ==> r == Err::<(), CertVerifyError>(
                CertVerifyError::NotExactlyOneCertificate,
            ),
            intermediates == 0 && parsed is Err ==> r == Err::<(), CertVerifyError>(parsed->Err_0),
            intermediates == 0 && parsed is Ok ==> r is Ok,
    {
        match verify_presented_certs(intermediates, parsed) {
            Ok(_) => Ok(()),
            Err(e) => Err(e),
        }
    }
}

} // verus!
