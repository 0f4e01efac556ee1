//! QUIC on top of a UDP connection: each side proves its identity with a certificate for its key.
use vstd::prelude::*;
use crate::keys::{key_views, PublicKey};
use crate::outside::{certificate_key, certify, check_public_key, pkcs8_of};
use crate::outside::{ed25519_key_valid, ed25519_pkcs8, ed25519_public_key};
use crate::outside::{self_signed_certificate, x509_subject_key};
use crate::udp::client::{ClientView, UdpConnectionEstablisher};
use crate::udp::messages::SecretKey;
use crate::wire::bytes_equal;

verus! {

/// The name in the certificates of all peers.
pub open spec fn subject_name() -> Seq<char> {
    "reprise-p2p"@
}

/// The certificate for a secret key.
pub open spec fn certificate_for(secret: Seq<u8>) -> Option<Seq<u8>> {
    match ed25519_pkcs8(secret) {
        Some(pkcs8) => self_signed_certificate(pkcs8, subject_name()),
        None => None,
    }
}

/// The self-signed certificate for a secret key, and the key as a PKCS#8 document. The
/// certificate carries the public key. `None` if either cannot be made.
pub fn quinn_cert_from_key(secret: &SecretKey) -> (r: Option<(Vec<u8>, Vec<u8>)>)
    ensures
        match r {
            Some((cert, key)) => ed25519_pkcs8(secret@) == Some(key@) && certificate_for(secret@)
                == Some(cert@) && x509_subject_key(cert@) == Some(ed25519_public_key(secret@)),
            None => certificate_for(secret@) is None,
        },
{
    match pkcs8_of(secret) {
        Some(pkcs8) => match certify(pkcs8.as_slice(), "reprise-p2p") {
            Some(cert) => Some((cert, pkcs8)),
            None => None,
        },
        None => None,
    }
}

/// Why a certificate is refused.
#[derive(Debug, Clone, Copy, PartialEq, Eq, Structural)]
pub enum CertificateError {
    /// The certificate could not be parsed.
    Malformed,
    /// The certificate is for another key.
    KeyMismatch,
}

impl CertificateError {
    /// The error in words.
    pub open spec fn text(self) -> Seq<char> {
        match self {
            CertificateError::Malformed => "Failed to parse X.509 cert"@,
            CertificateError::KeyMismatch => "Peer public key mismatch!"@,
        }
    }

    /// The error in words.
    pub fn message(&self) -> (r: String)
        ensures
            r@ == self.text(),
    {
        match self {
            CertificateError::Malformed => "Failed to parse X.509 cert".to_owned(),
            CertificateError::KeyMismatch => "Peer public key mismatch!".to_owned(),
        }
    }
}

/// Whether a peer whose certificate is for `key` is the one with the key `expected`.
pub open spec fn verdict(expected: Seq<u8>, key: Option<Seq<u8>>) -> Result<(), CertificateError> {
    match key {
        None => Err(CertificateError::Malformed),
        Some(k) => if k == expected {
            Ok(())
        } else {
            Err(CertificateError::KeyMismatch)
        },
    }
}

/// Accepts the certificates of one peer.
#[derive(Debug)]
pub struct PeerPublicKeyVerifier {
    expected_pubkey: PublicKey,
}

impl PeerPublicKeyVerifier {
    /// The key of the peer.
    pub closed spec fn expected(&self) -> Seq<u8> {
        self.expected_pubkey@
    }

    /// A verifier for the peer with the key `expected_pubkey`, or `None` if that is no key.
    pub fn new(expected_pubkey: PublicKey) -> (r: Option<Self>)
        ensures
            r is Some <==> ed25519_key_valid(expected_pubkey@),
            r matches Some(v) ==> v.expected() == expected_pubkey@,
    {
        if check_public_key(&expected_pubkey) {
            Some(PeerPublicKeyVerifier { expected_pubkey })
        } else {
            None
        }
    }

    /// Decides on a peer by the key in its certificate, or the absence of one.
    pub fn verify_key(&self, key: Option<Vec<u8>>) -> (r: Result<(), CertificateError>)
        ensures
            r == verdict(
                self.expected(),
                match key {
                    Some(k) => Some(k@),
                    None => None,
                },
            ),
    {
        match key {
            None => Err(CertificateError::Malformed),
            Some(k) => if bytes_equal(k.as_slice(), self.expected_pubkey.as_slice()) {
                Ok(())
            } else {
                Err(CertificateError::KeyMismatch)
            },
        }
    }

    /// Decides on a peer by its certificate.
    pub fn verify_cert(&self, end_entity: &[u8]) -> (r: Result<(), CertificateError>)
        ensures
            r == verdict(self.expected(), x509_subject_key(end_entity@)),
    {
        self.verify_key(certificate_key(end_entity))
    }
}

/// A certificate that was made from a secret key is accepted by a verifier exactly if that expects
/// the public key of the secret key.
pub proof fn certificate_proves_identity(secret: Seq<u8>, cert: Seq<u8>, expected: Seq<u8>)
    requires
        x509_subject_key(cert) == Some(ed25519_public_key(secret)),
    ensures
        verdict(expected, x509_subject_key(cert)) is Ok <==> expected == ed25519_public_key(secret),
        expected != ed25519_public_key(secret) ==> verdict(expected, x509_subject_key(cert)) == Err::<
            (),
            CertificateError,
        >(CertificateError::KeyMismatch),
{
}

/// What a side does to set up QUIC.
#[derive(Debug, Clone, Copy, PartialEq, Eq, Structural)]
pub enum QuicRole {
    /// Waits for the other side, as a server.
    Accept,
    /// Connects to the other side, as a client.
    Connect,
}

/// The role of a side: the listener is the server.
pub fn quic_role(is_listener: bool) -> (r: QuicRole)
    ensures
        r == if is_listener {
            QuicRole::Accept
        } else {
            QuicRole::Connect
        },
{
    if is_listener {
        QuicRole::Accept
    } else {
        QuicRole::Connect
    }
}

impl UdpConnectionEstablisher {
    /// Takes note of whether QUIC was set up on the connection to `key`. If it was not, discovery
    /// is enabled for this peer again.
    pub fn on_quic_result(&mut self, key: PublicKey, established: bool)
        requires
            old(self).wf(),
        ensures
            final(self).wf(),
            final(self)@ == if established {
                old(self)@
            } else {
                old(self)@.with_closed(key@)
            },
    {
        if !established {
            self.on_connection_closed(key);
        }
    }
}

/// A client that sets up QUIC on each of its connections.
pub struct UdpQuicConnectionEstablisher {
    pub inner: UdpConnectionEstablisher,
}

impl View for UdpQuicConnectionEstablisher {
    type V = ClientView;

    open spec fn view(&self) -> ClientView {
        self.inner@
    }
}

impl UdpQuicConnectionEstablisher {
    /// Whether the states of all peers are well formed.
    pub open spec fn wf(&self) -> bool {
        self.inner.wf()
    }

    /// A client that sets up QUIC on the connections of `inner`.
    pub fn new(inner: UdpConnectionEstablisher) -> (r: Self)
        ensures
            r.inner == inner,
    {
        UdpQuicConnectionEstablisher { inner }
    }

    /// Trusts `key`.
    pub fn add_trusted_remote(&mut self, key: PublicKey)
        requires
            old(self).wf(),
        ensures
            final(self).wf(),
            final(self)@ == old(self)@.with_remote(key@),
    {
        self.inner.add_trusted_remote(key);
    }

    /// No longer trusts `key`.
    pub fn remove_trusted_remote(&mut self, key: PublicKey)
        requires
            old(self).wf(),
        ensures
            final(self).wf(),
            final(self)@ == old(self)@.without_remote(key@),
    {
        self.inner.remove_trusted_remote(key);
    }

    /// Trusts exactly the given keys.
    pub fn set_trusted_remote_list(&mut self, new_trusted_remotes: Vec<PublicKey>)
        requires
            old(self).wf(),
        ensures
            final(self).wf(),
            final(self)@ == old(self)@.with_remotes(
                key_views(new_trusted_remotes@),
            ),
    {
        self.inner.set_trusted_remote_list(new_trusted_remotes);
    }

    /// Feedback on a connection: it failed or was closed. Discovery is enabled for this peer again.
    pub fn on_connection_closed(&mut self, key: PublicKey)
        requires
            old(self).wf(),
        ensures
            final(self).wf(),
            final(self)@ == old(self)@.with_closed(key@),
    {
        self.inner.on_connection_closed(key);
    }

    /// Takes note of whether QUIC was set up on the connection to `key`. If it was not, discovery
    /// is enabled for this peer again.
    pub fn on_quic_result(&mut self, key: PublicKey, established: bool)
        requires
            old(self).wf(),
        ensures
            final(self).wf(),
            final(self)@ == if established {
                old(self)@
            } else {
                old(self)@.with_closed(key@)
            },
    {
        self.inner.on_quic_result(key, established);
    }
}

/// The side that listens accepts the QUIC connection, and the other one makes it.
pub proof fn one_side_accepts(listener: QuicRole, other: QuicRole)
    requires
        call_ensures(quic_role, (true,), listener),
        call_ensures(quic_role, (false,), other),
    ensures
        listener is Accept,
        other is Connect,
{
}

/// A verifier is made for keys only. It accepts exactly the certificates for the key that it was
/// made for, and tells those for other keys from those that cannot be read.
pub proof fn verifier_accepts_one_key(
    expected: PublicKey,
    v: Option<PeerPublicKeyVerifier>,
    key: Vec<u8>,
    r: Result<(), CertificateError>,
    none: Result<(), CertificateError>,
    cert: &[u8],
    s: Result<(), CertificateError>,
)
    requires
        call_ensures(PeerPublicKeyVerifier::new, (expected,), v),
        v matches Some(verifier) ==> {
            &&& call_ensures(PeerPublicKeyVerifier::verify_key, (&verifier, Some(key)), r)
            &&& call_ensures(PeerPublicKeyVerifier::verify_key, (&verifier, None), none)
            &&& call_ensures(PeerPublicKeyVerifier::verify_cert, (&verifier, cert), s)
        },
    ensures
        v is Some <==> ed25519_key_valid(expected@),
        v is Some ==> {
            &&& key@ == expected@ ==> r is Ok
            &&& key@ != expected@ ==> r == Err::<(), CertificateError>(
                CertificateError::KeyMismatch,
            )
            &&& none == Err::<(), CertificateError>(CertificateError::Malformed)
            &&& x509_subject_key(cert@) is None ==> s == Err::<(), CertificateError>(
                CertificateError::Malformed,
            )
            &&& x509_subject_key(cert@) == Some(expected@) ==> s is Ok
            &&& x509_subject_key(cert@) is Some && x509_subject_key(cert@) != Some(expected@) ==> s
                == Err::<(), CertificateError>(CertificateError::KeyMismatch)
        },
{
}

/// Where QUIC was set up, nothing changes. Where it was not, the connection counts as closed: its
/// peer is enabled, and the next request is due at once. The client that sets up QUIC does so for
/// the client that it was made from.
pub proof fn failed_quic_closes_the_connection(
    c: &mut UdpConnectionEstablisher,
    key: PublicKey,
    established: bool,
    q: &mut UdpQuicConnectionEstablisher,
    inner: UdpConnectionEstablisher,
    made: UdpQuicConnectionEstablisher,
    k: Seq<u8>,
)
    requires
        call_ensures(UdpConnectionEstablisher::on_quic_result, (c, key, established), ()),
        call_ensures(UdpQuicConnectionEstablisher::on_quic_result, (q, key, established), ()),
        call_ensures(UdpQuicConnectionEstablisher::new, (inner,), made),
        old(q)@ == old(c)@,
    ensures
        established ==> final(c)@ == old(c)@,
        !established ==> {
            &&& final(c)@.trusted_remotes.contains_key(key@)
            &&& final(c)@.trusted_remotes[key@].state_kind is Enabled
            &&& final(c)@.last_request_tm is None
            &&& k != key@ ==> {
                &&& final(c)@.trusted_remotes.contains_key(k)
                    <==> old(c)@.trusted_remotes.contains_key(k)
                &&& final(c)@.trusted_remotes[k] == old(c)@.trusted_remotes[k]
            }
        },
        final(q)@ == final(c)@,
        made@ == inner@,
{
}

/// The client that sets up QUIC trusts and forgets peers as the one inside it does.
pub proof fn quic_client_trusts_alike(
    key: PublicKey,
    keys: Vec<PublicKey>,
    a: &mut UdpConnectionEstablisher,
    b: &mut UdpConnectionEstablisher,
    c: &mut UdpConnectionEstablisher,
    d: &mut UdpConnectionEstablisher,
    qa: &mut UdpQuicConnectionEstablisher,
    qb: &mut UdpQuicConnectionEstablisher,
    qc: &mut UdpQuicConnectionEstablisher,
    qd: &mut UdpQuicConnectionEstablisher,
)
    requires
        call_ensures(UdpConnectionEstablisher::add_trusted_remote, (a, key), ()),
        call_ensures(UdpConnectionEstablisher::remove_trusted_remote, (b, key), ()),
        call_ensures(UdpConnectionEstablisher::set_trusted_remote_list, (c, keys), ()),
        call_ensures(UdpConnectionEstablisher::on_connection_closed, (d, key), ()),
        call_ensures(UdpQuicConnectionEstablisher::add_trusted_remote, (qa, key), ()),
        call_ensures(UdpQuicConnectionEstablisher::remove_trusted_remote, (qb, key), ()),
        call_ensures(UdpQuicConnectionEstablisher::set_trusted_remote_list, (qc, keys), ()),
        call_ensures(UdpQuicConnectionEstablisher::on_connection_closed, (qd, key), ()),
        old(qa)@ == old(a)@,
        old(qb)@ == old(b)@,
        old(qc)@ == old(c)@,
        old(qd)@ == old(d)@,
    ensures
        final(qa)@ == final(a)@,
        final(qb)@ == final(b)@,
        final(qc)@ == final(c)@,
        final(qd)@ == final(d)@,
{
}

/// The certificate of a peer names `reprise-p2p` and carries the peer's public key, and comes with
/// the secret key that it was made with. Errors are put into words.
pub proof fn certificates_carry_the_key(
    secret: SecretKey,
    r: Option<(Vec<u8>, Vec<u8>)>,
    e: CertificateError,
    text: String,
)
    requires
        call_ensures(quinn_cert_from_key, (&secret,), r),
        call_ensures(CertificateError::message, (&e,), text),
    ensures
        r matches Some((cert, key)) ==> {
            &&& ed25519_pkcs8(secret@) == Some(key@)
            &&& self_signed_certificate(key@, "reprise-p2p"@) == Some(cert@)
            &&& x509_subject_key(cert@) == Some(ed25519_public_key(secret@))
        },
        r is None ==> (ed25519_pkcs8(secret@) matches Some(key) ==> self_signed_certificate(
            key,
            "reprise-p2p"@,
        ) is None),
        e is Malformed ==> text@ == "Failed to parse X.509 cert"@,
        e is KeyMismatch ==> text@ == "Peer public key mismatch!"@,
{
}

} // verus!
