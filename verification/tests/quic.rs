use ed25519_dalek::pkcs8::DecodePrivateKey;
use ed25519_dalek::SigningKey;
use reprise_p2p::net::{Ipv4Addr, SocketAddrV4};
use reprise_p2p::udp::client::UdpConnectionEstablisher;
use reprise_p2p::udp::quic::{
    quic_role, quinn_cert_from_key, CertificateError, PeerPublicKeyVerifier, QuicRole,
    UdpQuicConnectionEstablisher,
};

const SECRET: [u8; 32] = [5; 32];

fn public_key(secret: &[u8; 32]) -> [u8; 32] {
    SigningKey::from_bytes(secret).verifying_key().to_bytes()
}

#[test]
fn certificate_is_accepted_for_its_key_alone() {
    let (cert, key) = quinn_cert_from_key(&SECRET).unwrap();
    assert_eq!(SigningKey::from_pkcs8_der(&key).unwrap().to_bytes(), SECRET);
    let own = PeerPublicKeyVerifier::new(public_key(&SECRET)).unwrap();
    assert_eq!(own.verify_cert(&cert), Ok(()));
    let other = PeerPublicKeyVerifier::new(public_key(&[6; 32])).unwrap();
    assert_eq!(other.verify_cert(&cert), Err(CertificateError::KeyMismatch));
    assert_eq!(own.verify_cert(&[1, 2, 3]), Err(CertificateError::Malformed));
    assert_eq!(own.verify_cert(&[]), Err(CertificateError::Malformed));
}

#[test]
fn certificates_are_reproducible() {
    assert_eq!(quinn_cert_from_key(&SECRET), quinn_cert_from_key(&SECRET));
    assert_ne!(quinn_cert_from_key(&SECRET), quinn_cert_from_key(&[6; 32]));
}

#[test]
fn verdict_on_a_key() {
    let own = PeerPublicKeyVerifier::new(public_key(&SECRET)).unwrap();
    assert_eq!(own.verify_key(Some(public_key(&SECRET).to_vec())), Ok(()));
    assert_eq!(own.verify_key(Some(vec![1])), Err(CertificateError::KeyMismatch));
    assert_eq!(own.verify_key(None), Err(CertificateError::Malformed));
    assert_eq!(CertificateError::Malformed.message(), "Failed to parse X.509 cert");
    assert_eq!(CertificateError::KeyMismatch.message(), "Peer public key mismatch!");
}

#[test]
fn verifier_needs_a_key() {
    let mut refused = 0;
    for b in 0..=255u8 {
        let mut key = [2u8; 32];
        key[0] = b;
        if PeerPublicKeyVerifier::new(key).is_none() {
            refused += 1;
        }
    }
    assert!(refused > 0 && refused < 256);
}

#[test]
fn listener_is_the_server() {
    assert_eq!(quic_role(true), QuicRole::Accept);
    assert_eq!(quic_role(false), QuicRole::Connect);
}

#[test]
fn failed_handshake_resumes_discovery() {
    let server = SocketAddrV4 { ip: Ipv4Addr::new(1, 2, 3, 4), port: 5 };
    let inner = UdpConnectionEstablisher::with_session(SECRET, server, false, None, 1);
    let mut q = UdpQuicConnectionEstablisher::new(inner);
    q.add_trusted_remote([1; 32]);
    q.set_trusted_remote_list(vec![[2; 32], [3; 32]]);
    q.remove_trusted_remote([3; 32]);
    assert_eq!(q.inner.trusted_keys(), vec![[2; 32]]);
    q.on_quic_result([4; 32], true);
    assert_eq!(q.inner.trusted_keys(), vec![[2; 32]]);
    q.on_quic_result([4; 32], false);
    assert_eq!(q.inner.available_remotes(0), vec![[2; 32], [4; 32]]);
    q.on_connection_closed([5; 32]);
    assert_eq!(q.inner.available_remotes(0).len(), 3);
}
