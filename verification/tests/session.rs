use aes::Aes128;
use ctr::cipher::{KeyIvInit, StreamCipher};
use hmac::Mac;
use p256::ecdsa::SigningKey;
use p256::elliptic_curve::sec1::ToEncodedPoint;

use sev::certs::{Algorithm, Certificate, PublicKey, Usage};
use sev::chain::{Chain, Generation};
use sev::policy::Policy;
use sev::session::{
    build_bytes, derive_tek, derive_tik, HeaderFlags, Measurement, Session, SessionError,
    StartedSession, VerifiedSession,
};
use sev::{Build, Version};

const EXPECTED_DIGEST: [u8; 32] = [
    0x36, 0x7e, 0xf2, 0x27, 0xfc, 0x08, 0x2d, 0xad, 0x72, 0xde, 0xcc, 0x73, 0x2e, 0xf8, 0xb7,
    0xeb, 0x1b, 0xe9, 0xcd, 0x64, 0xe1, 0x8e, 0x98, 0x83, 0xe7, 0x25, 0xf6, 0x90, 0xf4, 0xdf,
    0x80, 0xb1,
];

const PERMUTED_DIGEST: [u8; 32] = [
    0xd3, 0xeb, 0xb5, 0xc3, 0xa7, 0x04, 0xde, 0xe7, 0x30, 0xfe, 0x77, 0x31, 0x47, 0xb8, 0xf4,
    0xfc, 0xc1, 0x33, 0x39, 0x5c, 0x60, 0x49, 0xd0, 0x4e, 0xcb, 0xb4, 0x04, 0xe9, 0x0e, 0xcd,
    0x1a, 0x55,
];

fn scalar_key(scalar: u8) -> SigningKey {
    let mut bytes = [0u8; 32];
    bytes[31] = scalar;
    SigningKey::from_slice(&bytes).unwrap()
}

fn pubkey_bytes(sk: &SigningKey) -> Vec<u8> {
    sk.verifying_key().to_encoded_point(false).as_bytes().to_vec()
}

fn bare_cert(usage: Usage, algo: Algorithm, key: Vec<u8>) -> Certificate {
    Certificate {
        version: 1,
        usage,
        key: PublicKey { algo, bytes: key },
        sigs: Vec::new(),
    }
}

/// A chain whose platform Diffie-Hellman key is the point of scalar 7; the
/// other slots carry unsigned placeholders, enough for session start.
fn chain_with_pdh(pdh_algo: Algorithm, pdh_key: Vec<u8>) -> Chain {
    Chain {
        generation: Generation::Naples,
        ark: bare_cert(Usage::Ark, Algorithm::EcdsaSha256, pubkey_bytes(&scalar_key(1))),
        ask: bare_cert(Usage::Ask, Algorithm::EcdsaSha256, pubkey_bytes(&scalar_key(2))),
        cek: bare_cert(Usage::Cek, Algorithm::EcdsaSha256, pubkey_bytes(&scalar_key(3))),
        oca: Some(bare_cert(Usage::Oca, Algorithm::EcdsaSha256, pubkey_bytes(&scalar_key(4)))),
        pek: bare_cert(Usage::Pek, Algorithm::EcdsaSha256, pubkey_bytes(&scalar_key(5))),
        pdh: bare_cert(Usage::Pdh, pdh_algo, pdh_key),
    }
}

fn fixed_session() -> Session {
    let own = scalar_key(9);
    let mut sk_bytes = [0u8; 32];
    sk_bytes[31] = 9;
    Session::with_parts(
        Policy::default(),
        (0u8..16).collect(),
        sk_bytes.to_vec(),
        pubkey_bytes(&own),
    )
}

fn started_fixed() -> StartedSession {
    let chain = chain_with_pdh(Algorithm::EcdhSha256, pubkey_bytes(&scalar_key(7)));
    let (started, blob) = fixed_session().start(&chain).unwrap();
    assert_eq!(blob.nonce, (0u8..16).collect::<Vec<u8>>());
    assert_eq!(blob.public_key, pubkey_bytes(&scalar_key(9)));
    started
}

/// The shared secret the platform side would compute: its own scalar 7
/// against the session's public key.
fn platform_shared_secret(session_public: &[u8]) -> Vec<u8> {
    let pdh_secret = p256::SecretKey::from_slice(&{
        let mut b = [0u8; 32];
        b[31] = 7;
        b
    })
    .unwrap();
    let peer = p256::PublicKey::from_sec1_bytes(session_public).unwrap();
    p256::ecdh::diffie_hellman(pdh_secret.to_nonzero_scalar(), peer.as_affine())
        .raw_secret_bytes()
        .to_vec()
}

fn test_build() -> Build {
    Build { version: Version { major: 1, minor: 49 }, build: 6 }
}

/// The integrity tag the firmware would put on a measurement, computed with
/// the HMAC implementation directly.
fn firmware_mac(tik: &[u8], digest: &[u8], build: &Build) -> Vec<u8> {
    let mut mac = hmac::Hmac::<sha2::Sha256>::new_from_slice(tik).unwrap();
    mac.update(digest);
    mac.update(&build_bytes(build));
    mac.finalize().into_bytes().to_vec()
}

fn verified_fixed() -> (VerifiedSession, Vec<u8>) {
    let mut started = started_fixed();
    started.update_data(&[1, 2, 3, 4]);
    started.update_data(&[5, 6, 7, 8]);
    let measured = started.measure();
    let shared = platform_shared_secret(&pubkey_bytes(&scalar_key(9)));
    let nonce: Vec<u8> = (0u8..16).collect();
    let tik = derive_tik(&shared, &nonce);
    let msr = Measurement {
        digest: measured.digest.clone(),
        mac: firmware_mac(&tik, &measured.digest, &test_build()),
    };
    let verified = measured.verify(test_build(), &msr).unwrap();
    (verified, shared)
}

#[test]
fn full_launch_digest_matches_expected_constant() {
    let mut started = started_fixed();
    started.update_data(&[1, 2, 3, 4]);
    started.update_data(&[5, 6, 7, 8]);
    let measured = started.measure();
    assert_eq!(measured.digest, EXPECTED_DIGEST.to_vec());
}

#[test]
fn identical_replay_verifies_and_permuted_order_fails() {
    // The honest path: the firmware measured the same bytes in the same
    // order and tagged the digest with the shared integrity key.
    let mut started = started_fixed();
    started.update_data(&[1, 2, 3, 4]);
    started.update_data(&[5, 6, 7, 8]);
    let measured = started.measure();
    let shared = platform_shared_secret(&pubkey_bytes(&scalar_key(9)));
    let tik = derive_tik(&shared, &(0u8..16).collect::<Vec<u8>>());
    let honest = Measurement {
        digest: measured.digest.clone(),
        mac: firmware_mac(&tik, &measured.digest, &test_build()),
    };
    assert!(measured.verify(test_build(), &honest).is_ok());

    // Permuting the two update calls changes the digest, so verification
    // against the un-permuted firmware measurement must fail.
    let mut permuted = started_fixed();
    permuted.update_data(&[5, 6, 7, 8]);
    permuted.update_data(&[1, 2, 3, 4]);
    let permuted = permuted.measure();
    assert_eq!(permuted.digest, PERMUTED_DIGEST.to_vec());
    assert_ne!(permuted.digest, EXPECTED_DIGEST.to_vec());
    assert_eq!(
        permuted.verify(test_build(), &honest).unwrap_err(),
        SessionError::BadMeasurement
    );
}

#[test]
fn tampered_measurement_tag_fails() {
    let mut started = started_fixed();
    started.update_data(&[1, 2, 3, 4]);
    let measured = started.measure();
    let shared = platform_shared_secret(&pubkey_bytes(&scalar_key(9)));
    let tik = derive_tik(&shared, &(0u8..16).collect::<Vec<u8>>());
    let mut msr = Measurement {
        digest: measured.digest.clone(),
        mac: firmware_mac(&tik, &measured.digest, &test_build()),
    };
    msr.mac[3] ^= 0x40;
    assert_eq!(
        measured.verify(test_build(), &msr).unwrap_err(),
        SessionError::BadMeasurement
    );
}

#[test]
fn secret_encrypts_under_transport_keys() {
    let (verified, shared) = verified_fixed();
    let plaintext = b"guest boot secret";
    let secret = verified.secret(HeaderFlags::default(), plaintext);
    assert_eq!(secret.iv.len(), 16);
    assert_eq!(secret.ciphertext.len(), plaintext.len());
    assert_ne!(secret.ciphertext, plaintext.to_vec());

    // Decrypting with the independently derived transport encryption key
    // recovers the plaintext.
    let nonce: Vec<u8> = (0u8..16).collect();
    let tek = derive_tek(&shared, &nonce);
    let mut buf = secret.ciphertext.clone();
    let mut cipher =
        <ctr::Ctr128BE<Aes128> as KeyIvInit>::new(tek.as_slice().into(), secret.iv.as_slice().into());
    cipher.apply_keystream(&mut buf);
    assert_eq!(buf, plaintext.to_vec());

    // The integrity tag validates under the transport integrity key.
    let tik = derive_tik(&shared, &nonce);
    let mut mac = hmac::Hmac::<sha2::Sha256>::new_from_slice(&tik).unwrap();
    mac.update(&secret.flags.bits.to_le_bytes());
    mac.update(&secret.iv);
    mac.update(&secret.ciphertext);
    assert_eq!(secret.mac, mac.finalize().into_bytes().to_vec());
}

#[test]
fn start_rejects_unsupported_generation() {
    // A platform Diffie-Hellman slot carrying a signing-key algorithm
    // matches no key-derivation profile.
    let chain = chain_with_pdh(Algorithm::EcdsaSha256, pubkey_bytes(&scalar_key(7)));
    assert_eq!(
        fixed_session().start(&chain).unwrap_err(),
        SessionError::UnsupportedGeneration
    );
}

#[test]
fn start_rejects_unusable_pdh_key() {
    let chain = chain_with_pdh(Algorithm::EcdhSha256, vec![0xaa; 65]);
    assert_eq!(
        fixed_session().start(&chain).unwrap_err(),
        SessionError::InvalidPdhKey
    );
}

#[test]
fn fresh_sessions_have_fresh_material() {
    let a = Session::new(Policy::default());
    let b = Session::new(Policy::default());
    assert_eq!(a.nonce.len(), 16);
    assert_eq!(a.secret_key.len(), 32);
    assert_eq!(a.public_key.len(), 65);
    assert_ne!(a.nonce, b.nonce);
    assert_ne!(a.public_key, b.public_key);
    // The blob's public key is the public point of the very scalar the
    // session holds for key agreement.
    let own = SigningKey::from_slice(&a.secret_key).unwrap();
    assert_eq!(a.public_key, pubkey_bytes(&own));
}
