//! Trusted boundary to the cryptographic primitives the protocol uses.
//!
//! Every function here only converts arguments, makes one outside call and
//! converts the result. The deterministic primitives get an uninterpreted
//! name so that callers' contracts can speak of the result exactly.

use vstd::prelude::*;

use aes::Aes128;
use ctr::cipher::KeyIvInit;
use ctr::cipher::StreamCipher;
use p256::ecdh::diffie_hellman;
use p256::ecdsa::signature::Verifier;
use p256::elliptic_curve::sec1::ToEncodedPoint;
use rand_core::RngCore;
use sha2::Digest;

verus! {

/// The SHA-256 digest of a byte sequence.
pub uninterp spec fn sha256_of(data: Seq<u8>) -> Seq<u8>;

/// The HMAC-SHA-256 tag over a message under a key.
pub uninterp spec fn hmac_sha256_of(key: Seq<u8>, msg: Seq<u8>) -> Seq<u8>;

/// Whether an ECDSA-P-256-SHA-256 signature over a message is accepted
/// under a SEC1-encoded public key.
pub uninterp spec fn p256_signature_ok(key: Seq<u8>, msg: Seq<u8>, sig: Seq<u8>) -> bool;

/// The ECDH shared secret between an own P-256 scalar and a peer's
/// SEC1-encoded public point.
pub uninterp spec fn p256_shared_secret_of(scalar: Seq<u8>, peer: Seq<u8>) -> Seq<u8>;

/// Whether a P-256 scalar and a peer's SEC1-encoded public point decode and
/// agree on a shared secret.
pub uninterp spec fn p256_ecdh_ok(scalar: Seq<u8>, peer: Seq<u8>) -> bool;

/// The uncompressed SEC1 public point of a P-256 scalar.
pub uninterp spec fn p256_public_of(scalar: Seq<u8>) -> Seq<u8>;

/// The AES-128-CTR keystream applied to a byte sequence.
pub uninterp spec fn aes128_ctr_of(key: Seq<u8>, iv: Seq<u8>, data: Seq<u8>) -> Seq<u8>;

/// Relies on sha2's `Sha256::digest`: a 32-byte digest that depends on the
/// input bytes alone.
#[verifier::external_body]
pub fn sha256(data: &[u8]) -> (r: Vec<u8>)
    ensures
        r@ == sha256_of(data@),
        r@.len() == 32,
{
    sha2::Sha256::digest(data).to_vec()
}

/// Relies on hmac's `Hmac::<Sha256>`: a 32-byte tag that depends on the key
/// and message bytes alone; any key length is accepted.
#[verifier::external_body]
pub fn hmac_sha256(key: &[u8], msg: &[u8]) -> (r: Vec<u8>)
    ensures
        r@ == hmac_sha256_of(key@, msg@),
        r@.len() == 32,
{
    let mut mac = <hmac::Hmac<sha2::Sha256> as hmac::Mac>::new_from_slice(key)
        .expect("HMAC accepts any key length");
    hmac::Mac::update(&mut mac, msg);
    hmac::Mac::finalize(mac).into_bytes().to_vec()
}

/// Relies on p256's ECDSA verification (`VerifyingKey::verify`, which hashes
/// the message with SHA-256): acceptance depends on the key, message and
/// signature bytes alone; an undecodable key or signature is never accepted.
#[verifier::external_body]
pub fn p256_verify(key: &[u8], msg: &[u8], sig: &[u8]) -> (r: bool)
    ensures
        r == p256_signature_ok(key@, msg@, sig@),
{
    let key = match p256::ecdsa::VerifyingKey::from_sec1_bytes(key) {
        Ok(k) => k,
        Err(_) => return false,
    };
    let sig = match p256::ecdsa::Signature::from_slice(sig) {
        Ok(s) => s,
        Err(_) => return false,
    };
    key.verify(msg, &sig).is_ok()
}

/// Relies on p256's `ecdh::diffie_hellman`: whether the scalar and the peer
/// point decode depends on the two byte strings alone, and when they do, the
/// 32-byte shared secret is a function of them alone.
#[verifier::external_body]
pub fn p256_ecdh(scalar: &[u8], peer: &[u8]) -> (r: Option<Vec<u8>>)
    ensures
        r is Some <==> p256_ecdh_ok(scalar@, peer@),
        r matches Some(s) ==> s@ == p256_shared_secret_of(scalar@, peer@) && s@.len() == 32,
{
    let sk = p256::SecretKey::from_slice(scalar).ok()?;
    let pk = p256::PublicKey::from_sec1_bytes(peer).ok()?;
    let shared = diffie_hellman(sk.to_nonzero_scalar(), pk.as_affine());
    Some(shared.raw_secret_bytes().to_vec())
}

/// Relies on p256's `SecretKey::random` over the operating system's entropy
/// and `PublicKey::to_encoded_point`: nothing is assumed of which scalar
/// comes back, only its shape and that the second component is that very
/// scalar's uncompressed SEC1 public point.
#[verifier::external_body]
pub fn p256_generate() -> (r: (Vec<u8>, Vec<u8>))
    ensures
        r.0@.len() == 32,
        r.1@.len() == 65,
        r.1@ == p256_public_of(r.0@),
{
    let sk = p256::SecretKey::random(&mut rand_core::OsRng);
    let scalar = sk.to_bytes().to_vec();
    let point = sk.public_key().to_encoded_point(false).as_bytes().to_vec();
    (scalar, point)
}

/// Relies on rand_core's `OsRng::fill_bytes`; only the length of the result
/// is assumed.
#[verifier::external_body]
pub fn random_bytes_16() -> (r: Vec<u8>)
    ensures
        r@.len() == 16,
{
    let mut buf = [0u8; 16];
    rand_core::OsRng.fill_bytes(&mut buf);
    buf.to_vec()
}

/// Relies on aes and ctr (`Ctr128BE<Aes128>::apply_keystream`): the output
/// depends on the key, nonce and input bytes alone and keeps the length.
#[verifier::external_body]
pub fn aes128_ctr_apply(key: &[u8], iv: &[u8], data: &[u8]) -> (r: Vec<u8>)
    requires
        key@.len() == 16,
        iv@.len() == 16,
    ensures
        r@ == aes128_ctr_of(key@, iv@, data@),
        r@.len() == data@.len(),
{
    let mut buf = data.to_vec();
    let mut cipher = <ctr::Ctr128BE<Aes128> as KeyIvInit>::new(key.into(), iv.into());
    cipher.apply_keystream(&mut buf);
    buf
}

} // verus!
