//! Calls into other crates. Each function hands its arguments to one service of another crate and
//! hands the answer back as plain values; what is claimed of the answer is taken on trust.
use vstd::prelude::*;
use chrono::{DateTime, Utc};
use ed25519_dalek::pkcs8::EncodePrivateKey;
use ed25519_dalek::{Signer, SigningKey, Verifier, VerifyingKey};
use rand::seq::SliceRandom;
use crate::keys::PublicKey;
use crate::time::{UtcTime, NANOS_PER_SEC};

verus! {

/// The first instant that has a date, in milliseconds since 1970.
pub const MIN_TIMESTAMP_MILLIS: i64 = -8_334_601_228_800_000;

/// The last instant that has a date, in milliseconds since 1970.
pub const MAX_TIMESTAMP_MILLIS: i64 = 8_210_266_876_799_999;

/// Whether `millis` milliseconds since 1970 is a date between the start of the year -262143 and
/// the end of the year 262142.
pub open spec fn timestamp_valid(millis: int) -> bool {
    MIN_TIMESTAMP_MILLIS <= millis <= MAX_TIMESTAMP_MILLIS
}

/// Whether 32 bytes encode a point of the Ed25519 curve, so that they can be a public key.
pub uninterp spec fn ed25519_key_valid(key: Seq<u8>) -> bool;

/// Whether the Ed25519 signature belongs to the message under the public key.
pub uninterp spec fn ed25519_verifies(
    key: Seq<u8>,
    message: Seq<u8>,
    signature: Seq<u8>,
) -> bool;

/// The Ed25519 public key that belongs to a secret key.
pub uninterp spec fn ed25519_public_key(secret: Seq<u8>) -> Seq<u8>;

/// The Ed25519 signature of a message under a secret key.
pub uninterp spec fn ed25519_signature(secret: Seq<u8>, message: Seq<u8>) -> Seq<u8>;

/// The PKCS#8 document for an Ed25519 secret key.
pub uninterp spec fn ed25519_pkcs8(secret: Seq<u8>) -> Option<Seq<u8>>;

/// The self-signed certificate for a PKCS#8 key and a subject name.
pub uninterp spec fn self_signed_certificate(pkcs8: Seq<u8>, name: Seq<char>) -> Option<Seq<u8>>;

/// The public key of the subject of an X.509 certificate, or `None` if the bytes do not start
/// with a certificate.
pub uninterp spec fn x509_subject_key(der: Seq<u8>) -> Option<Seq<u8>>;

/// `DateTime::from_timestamp_millis` and back: there is a date for `millis` exactly if it lies in
/// the range of dates, and its `timestamp_millis` is `millis` again.
#[verifier::external_body]
pub(crate) fn date_of_millis(millis: i64) -> (r: Option<i64>)
    ensures
        r is Some <==> timestamp_valid(millis as int),
        r matches Some(m) ==> m == millis,
{
    match DateTime::from_timestamp_millis(millis) {
        Some(date) => Some(date.timestamp_millis()),
        None => None,
    }
}

/// `Utc::now`, as whole seconds since 1970 and the nanoseconds since: some date that is not before
/// 1970. The call panics if the system clock stands before 1970 or after the last date.
#[verifier::external_body]
pub(crate) fn utc_now() -> (r: UtcTime)
    ensures
        0 <= r.secs,
        timestamp_valid(r.total_millis()),
        r.nanos < NANOS_PER_SEC,
{
    let now = Utc::now();
    UtcTime { secs: now.timestamp(), nanos: now.timestamp_subsec_nanos() }
}

/// `VerifyingKey::from_bytes`: whether it accepts `key`.
#[verifier::external_body]
pub(crate) fn check_public_key(key: &PublicKey) -> (r: bool)
    ensures
        r == ed25519_key_valid(key@),
{
    VerifyingKey::from_bytes(key).is_ok()
}

/// `VerifyingKey::verify`: whether it accepts `signature` for `message` under `key`, which
/// must be a key that `VerifyingKey::from_bytes` accepts.
#[verifier::external_body]
pub(crate) fn check_signature(key: &PublicKey, message: &[u8], signature: &[u8; 64]) -> (r: bool)
    requires
        ed25519_key_valid(key@),
    ensures
        r == ed25519_verifies(key@, message@, signature@),
{
    let verifying_key = VerifyingKey::from_bytes(key).unwrap();
    verifying_key.verify(message, &ed25519_dalek::Signature::from_bytes(signature)).is_ok()
}

/// `SigningKey::verifying_key`: the public key of `secret`, which `VerifyingKey::from_bytes`
/// accepts.
#[verifier::external_body]
pub(crate) fn public_key_of(secret: &[u8; 32]) -> (r: PublicKey)
    ensures
        r@ == ed25519_public_key(secret@),
        ed25519_key_valid(r@),
{
    SigningKey::from_bytes(secret).verifying_key().to_bytes()
}

/// `SigningKey::sign`: the signature of `message` under `secret`, which `VerifyingKey::verify`
/// accepts under the public key of `secret`.
#[verifier::external_body]
pub(crate) fn sign(secret: &[u8; 32], message: &[u8]) -> (r: [u8; 64])
    ensures
        r@ == ed25519_signature(secret@, message@),
        ed25519_verifies(ed25519_public_key(secret@), message@, r@),
{
    SigningKey::from_bytes(secret).sign(message).to_bytes()
}

/// `SigningKey::to_pkcs8_der`: the PKCS#8 document that holds `secret`, or `None` on its error.
#[verifier::external_body]
pub(crate) fn pkcs8_of(secret: &[u8; 32]) -> (r: Option<Vec<u8>>)
    ensures
        match r {
            Some(der) => ed25519_pkcs8(secret@) == Some(der@),
            None => ed25519_pkcs8(secret@) is None,
        },
{
    match SigningKey::from_bytes(secret).to_pkcs8_der() {
        Ok(der) => Some(der.as_bytes().to_vec()),
        Err(_) => None,
    }
}

/// `CertificateParams::self_signed` with the parameters of `CertificateParams::new` for one
/// subject name and the key of `KeyPair::from_pkcs8_der_and_sign_algo`, or `None` if one of them
/// fails. The certificate is made for the key that signs it: where `pkcs8` is the document of an
/// Ed25519 secret key, the subject's key in the certificate is that key's public key.
#[verifier::external_body]
pub(crate) fn certify(pkcs8: &[u8], name: &str) -> (r: Option<Vec<u8>>)
    ensures
        match r {
            Some(der) => self_signed_certificate(pkcs8@, name@) == Some(der@),
            None => self_signed_certificate(pkcs8@, name@) is None,
        },
        r matches Some(der) ==> forall|secret: Seq<u8>|
            secret.len() == 32 && #[trigger] ed25519_pkcs8(secret) == Some(pkcs8@)
                ==> x509_subject_key(der@) == Some(ed25519_public_key(secret)),
{
    let algorithm = &rcgen::PKCS_ED25519;
    let key_pair = rcgen::KeyPair::from_pkcs8_der_and_sign_algo(&pkcs8.into(), algorithm).ok()?;
    let params = rcgen::CertificateParams::new(vec![name.to_string()]).ok()?;
    let certificate = params.self_signed(&key_pair).ok()?;
    Some(certificate.der().to_vec())
}

/// `parse_x509_certificate`: the bytes of the subject's public key in the certificate at the
/// start of `der`, or `None` on its error.
#[verifier::external_body]
pub(crate) fn certificate_key(der: &[u8]) -> (r: Option<Vec<u8>>)
    ensures
        match r {
            Some(key) => x509_subject_key(der@) == Some(key@),
            None => x509_subject_key(der@) is None,
        },
{
    match x509_parser::parse_x509_certificate(der) {
        Ok((_, x509)) => Some(x509.tbs_certificate.subject_pki.subject_public_key.data.to_vec()),
        Err(_) => None,
    }
}

/// `SliceRandom::shuffle` with the thread's generator: the same keys in some order.
#[verifier::external_body]
pub(crate) fn shuffle_keys(keys: &mut Vec<PublicKey>)
    ensures
        final(keys)@.to_multiset() == old(keys)@.to_multiset(),
{
    keys.shuffle(&mut rand::rng());
}

/// `rand::random` for a session id: any number.
#[verifier::external_body]
pub(crate) fn random_u32() -> (r: u32) {
    rand::random()
}

/// `rand::random` for a ping payload: any number.
#[verifier::external_body]
pub(crate) fn random_u64() -> (r: u64) {
    rand::random()
}

} // verus!
