use p256::ecdsa::signature::Signer;
use p256::ecdsa::SigningKey;
use p256::elliptic_curve::sec1::ToEncodedPoint;

use sev::certs::{verify, Algorithm, Certificate, DecodeError, PublicKey, Signature, Usage, VerifyError};
use sev::chain::{ark_public_key, Chain, ChainEdge, Generation};

fn scalar_key(scalar: u8) -> SigningKey {
    let mut bytes = [0u8; 32];
    bytes[31] = scalar;
    SigningKey::from_slice(&bytes).unwrap()
}

fn pubkey_bytes(sk: &SigningKey) -> Vec<u8> {
    sk.verifying_key().to_encoded_point(false).as_bytes().to_vec()
}

fn bare_cert(usage: Usage, algo: Algorithm, key: Vec<u8>) -> Certificate {
    Certificate {
        version: 1,
        usage,
        key: PublicKey { algo, bytes: key },
        sigs: Vec::new(),
    }
}

fn sign_with(signer: &SigningKey, signer_usage: Usage, subject: &mut Certificate) {
    let body = subject.encode_body();
    let sig: p256::ecdsa::Signature = signer.sign(&body);
    subject.sigs.push(Signature {
        usage: signer_usage,
        algo: Algorithm::EcdsaSha256,
        bytes: sig.to_bytes().to_vec(),
    });
}

/// A chain for the Naples generation whose root key is the compiled-in
/// anchor (scalar 1), with freshly generated owner-side keys.
fn naples_chain() -> Chain {
    let ark_sk = scalar_key(1);
    let ask_sk = scalar_key(2);
    let cek_sk = scalar_key(3);
    let oca_sk = SigningKey::random(&mut rand_core::OsRng);
    let pek_sk = SigningKey::random(&mut rand_core::OsRng);
    let pdh_sk = scalar_key(7);

    let mut ark = bare_cert(Usage::Ark, Algorithm::EcdsaSha256, ark_public_key(Generation::Naples));
    sign_with(&ark_sk, Usage::Ark, &mut ark);
    let mut ask = bare_cert(Usage::Ask, Algorithm::EcdsaSha256, pubkey_bytes(&ask_sk));
    sign_with(&ark_sk, Usage::Ark, &mut ask);
    let mut cek = bare_cert(Usage::Cek, Algorithm::EcdsaSha256, pubkey_bytes(&cek_sk));
    sign_with(&ask_sk, Usage::Ask, &mut cek);
    let mut oca = bare_cert(Usage::Oca, Algorithm::EcdsaSha256, pubkey_bytes(&oca_sk));
    sign_with(&oca_sk, Usage::Oca, &mut oca);
    let mut pek = bare_cert(Usage::Pek, Algorithm::EcdsaSha256, pubkey_bytes(&pek_sk));
    sign_with(&oca_sk, Usage::Oca, &mut pek);
    let mut pdh = bare_cert(Usage::Pdh, Algorithm::EcdhSha256, pubkey_bytes(&pdh_sk));
    sign_with(&pek_sk, Usage::Pek, &mut pdh);

    Chain { generation: Generation::Naples, ark, ask, cek, oca: Some(oca), pek, pdh }
}

/// A Naples chain for a self-owned platform: no owner authority, the chip
/// endorsement key signs the platform endorsement key.
fn self_owned_chain() -> Chain {
    let ark_sk = scalar_key(1);
    let ask_sk = scalar_key(2);
    let cek_sk = scalar_key(3);
    let pek_sk = SigningKey::random(&mut rand_core::OsRng);
    let pdh_sk = scalar_key(7);

    let mut ark = bare_cert(Usage::Ark, Algorithm::EcdsaSha256, ark_public_key(Generation::Naples));
    sign_with(&ark_sk, Usage::Ark, &mut ark);
    let mut ask = bare_cert(Usage::Ask, Algorithm::EcdsaSha256, pubkey_bytes(&ask_sk));
    sign_with(&ark_sk, Usage::Ark, &mut ask);
    let mut cek = bare_cert(Usage::Cek, Algorithm::EcdsaSha256, pubkey_bytes(&cek_sk));
    sign_with(&ask_sk, Usage::Ask, &mut cek);
    let mut pek = bare_cert(Usage::Pek, Algorithm::EcdsaSha256, pubkey_bytes(&pek_sk));
    sign_with(&cek_sk, Usage::Cek, &mut pek);
    let mut pdh = bare_cert(Usage::Pdh, Algorithm::EcdhSha256, pubkey_bytes(&pdh_sk));
    sign_with(&pek_sk, Usage::Pek, &mut pdh);

    Chain { generation: Generation::Naples, ark, ask, cek, oca: None, pek, pdh }
}

#[test]
fn test_for_verify_false_positive() {
    // A chip endorsement key signed by one platform's signing key must not
    // verify against another platform's signing key, even though the usages
    // are compatible.
    let naples_ask_sk = scalar_key(2);
    let rome_ask_sk = scalar_key(4);
    let mut cek = bare_cert(Usage::Cek, Algorithm::EcdsaSha256, pubkey_bytes(&scalar_key(3)));
    sign_with(&naples_ask_sk, Usage::Ask, &mut cek);
    let rome_ask = bare_cert(Usage::Ask, Algorithm::EcdsaSha256, pubkey_bytes(&rome_ask_sk));
    assert!(verify(&rome_ask, &cek).is_err());
}

#[test]
fn pair_verify_accepts_honest_signature() {
    let oca_sk = SigningKey::random(&mut rand_core::OsRng);
    let oca = bare_cert(Usage::Oca, Algorithm::EcdsaSha256, pubkey_bytes(&oca_sk));
    let mut pek = bare_cert(Usage::Pek, Algorithm::EcdsaSha256, pubkey_bytes(&scalar_key(5)));
    sign_with(&oca_sk, Usage::Oca, &mut pek);
    assert_eq!(verify(&oca, &pek), Ok(()));
}

#[test]
fn pair_verify_usage_mismatch() {
    let oca_sk = SigningKey::random(&mut rand_core::OsRng);
    let oca = bare_cert(Usage::Oca, Algorithm::EcdsaSha256, pubkey_bytes(&oca_sk));
    let mut pdh = bare_cert(Usage::Pdh, Algorithm::EcdhSha256, pubkey_bytes(&scalar_key(6)));
    sign_with(&oca_sk, Usage::Oca, &mut pdh);
    assert_eq!(verify(&oca, &pdh), Err(VerifyError::UsageMismatch));
}

#[test]
fn unverifiable_algorithm_is_told_apart_from_rejection() {
    // An RSA-signed certificate decodes, but its signature cannot be
    // cryptographically examined: the verdict says it could not be verified,
    // not that a signature was checked and rejected.
    let oca = bare_cert(Usage::Oca, Algorithm::RsaSha256, vec![3; 256]);
    let mut pek = bare_cert(Usage::Pek, Algorithm::EcdsaSha256, pubkey_bytes(&scalar_key(5)));
    pek.sigs.push(Signature {
        usage: Usage::Oca,
        algo: Algorithm::RsaSha256,
        bytes: vec![5; 256],
    });
    assert_eq!(verify(&oca, &pek), Err(VerifyError::UnsupportedAlgorithm));
    // An unsigned subject likewise offers nothing to check.
    let bare = bare_cert(Usage::Pek, Algorithm::EcdsaSha256, pubkey_bytes(&scalar_key(5)));
    let oca_ec = bare_cert(Usage::Oca, Algorithm::EcdsaSha256, pubkey_bytes(&scalar_key(4)));
    assert_eq!(verify(&oca_ec, &bare), Err(VerifyError::UnsupportedAlgorithm));
}

#[test]
fn rsa_record_round_trips() {
    let mut cert = bare_cert(Usage::Oca, Algorithm::RsaSha256, vec![7; 256]);
    cert.sigs.push(Signature {
        usage: Usage::Oca,
        algo: Algorithm::RsaSha256,
        bytes: vec![9; 256],
    });
    let encoded = cert.encode();
    let decoded = Certificate::decode(&encoded).unwrap();
    assert_eq!(decoded, cert);
    assert_eq!(decoded.encode(), encoded);
}

#[test]
fn chain_verifies_and_any_flipped_signature_byte_fails() {
    let chain = naples_chain();
    assert_eq!(chain.verify(), Ok(()));
    assert!(chain.broken_edges().is_empty());

    // Flipping any single byte of the leaf signature must break the chain.
    for i in 0..chain.pdh.sigs[0].bytes.len() {
        let mut bad = chain.clone();
        bad.pdh.sigs[0].bytes[i] ^= 0x01;
        let err = bad.verify().unwrap_err();
        assert_eq!(err.edge, ChainEdge::Pdh);
        assert_eq!(err.cause, VerifyError::BadSignature);
    }

    // Same for a byte in the middle of the root's self-signature.
    let mut bad = chain.clone();
    bad.ark.sigs[0].bytes[20] ^= 0xff;
    let err = bad.verify().unwrap_err();
    assert_eq!(err.edge, ChainEdge::Ark);
    assert_eq!(err.cause, VerifyError::BadSignature);
}

#[test]
fn three_certificate_chain_scenario() {
    // The owner-side chain: the owner authority signs the endorsement key,
    // which signs the platform Diffie-Hellman key.
    let chain = naples_chain();
    let oca = chain.oca.as_ref().unwrap();
    assert_eq!(verify(oca, oca), Ok(()));
    assert_eq!(verify(oca, &chain.pek), Ok(()));
    assert_eq!(verify(&chain.pek, &chain.pdh), Ok(()));
    assert_eq!(chain.verify(), Ok(()));

    // Corrupting one byte of the endorsement key's signature names exactly
    // that edge.
    let mut bad = chain.clone();
    bad.pek.sigs[0].bytes[7] ^= 0x20;
    let err = bad.verify().unwrap_err();
    assert_eq!(err.edge, ChainEdge::Pek);
    assert_eq!(err.cause, VerifyError::BadSignature);
}

#[test]
fn chain_without_owner_authority_verifies() {
    // On a self-owned platform the owner slot is empty and the chip
    // endorsement key endorses the platform endorsement key.
    let chain = self_owned_chain();
    assert_eq!(chain.verify(), Ok(()));
    assert!(chain.broken_edges().is_empty());

    // The codec carries the absence faithfully.
    let encoded = chain.encode();
    let decoded = Chain::decode(&encoded).unwrap();
    assert_eq!(decoded, chain);
    assert!(decoded.oca.is_none());

    // A broken endorsement still names the endorsement edge.
    let mut bad = chain.clone();
    bad.pek.sigs[0].bytes[11] ^= 0x04;
    let err = bad.verify().unwrap_err();
    assert_eq!(err.edge, ChainEdge::Pek);
    assert_eq!(err.cause, VerifyError::BadSignature);
}

#[test]
fn self_signed_pdh_is_an_allowed_issuer_pair() {
    // Some generations issue the platform Diffie-Hellman certificate
    // self-signed; the usage pairing admits it when the key can sign.
    let pdh_sk = SigningKey::random(&mut rand_core::OsRng);
    let mut pdh = bare_cert(Usage::Pdh, Algorithm::EcdsaSha256, pubkey_bytes(&pdh_sk));
    sign_with(&pdh_sk, Usage::Pdh, &mut pdh);
    assert_eq!(verify(&pdh.clone(), &pdh), Ok(()));
}

#[test]
fn broken_edges_reports_exactly_the_broken_set() {
    let mut chain = naples_chain();
    chain.pdh.sigs[0].bytes[0] ^= 0x01;
    chain.cek.sigs[0].bytes[0] ^= 0x01;
    let broken = chain.broken_edges();
    assert_eq!(broken, vec![ChainEdge::Pdh, ChainEdge::Cek]);
    // Verification reports the first broken edge in leaf-to-root order.
    assert_eq!(chain.verify().unwrap_err().edge, ChainEdge::Pdh);
}

#[test]
fn untrusted_root_is_told_apart() {
    let mut chain = naples_chain();
    // The same certificates presented as a Rome chain carry the wrong root.
    chain.generation = Generation::Rome;
    let err = chain.verify().unwrap_err();
    assert_eq!(err.edge, ChainEdge::Ark);
    assert_eq!(err.cause, VerifyError::UntrustedRoot);
}

#[test]
fn certificate_round_trip() {
    let chain = naples_chain();
    let oca = chain.oca.clone().unwrap();
    for cert in [&chain.ark, &chain.ask, &chain.cek, &oca, &chain.pek, &chain.pdh] {
        let encoded = cert.encode();
        let decoded = Certificate::decode(&encoded).unwrap();
        assert_eq!(&decoded, cert);
        assert_eq!(decoded.encode(), encoded);
    }
}

#[test]
fn chain_round_trip() {
    let chain = naples_chain();
    let encoded = chain.encode();
    let decoded = Chain::decode(&encoded).unwrap();
    assert_eq!(decoded, chain);
    assert_eq!(decoded.encode(), encoded);
}

#[test]
fn decode_rejects_truncated_input() {
    assert_eq!(Certificate::decode(&[]), Err(DecodeError::Truncated));
    let chain = naples_chain();
    let encoded = chain.pek.encode();
    assert_eq!(
        Certificate::decode(&encoded[..encoded.len() - 1]),
        Err(DecodeError::Truncated)
    );
    assert_eq!(Chain::decode(&[0, 0]), Err(DecodeError::Truncated));
}

#[test]
fn decode_rejects_unrecognized_tags() {
    // version 1, usage tag 0x99 (unknown).
    let mut bytes = vec![1, 0, 0, 0, 0x99, 0, 0, 0, 2, 0, 0, 0];
    assert_eq!(Certificate::decode(&bytes), Err(DecodeError::InvalidUsage(0x99)));
    // version 1, usage ARK (0), algorithm tag 9 (unknown).
    bytes = vec![1, 0, 0, 0, 0, 0, 0, 0, 9, 0, 0, 0];
    assert_eq!(Certificate::decode(&bytes), Err(DecodeError::InvalidAlgorithm(9)));
    // A chain with an unknown generation tag.
    assert_eq!(
        Chain::decode(&[9, 0, 0, 0, 0, 0, 0, 0]),
        Err(DecodeError::InvalidGeneration(9))
    );
    // A chain with an owner-presence word outside zero and one.
    assert_eq!(
        Chain::decode(&[0, 0, 0, 0, 2, 0, 0, 0]),
        Err(DecodeError::InvalidOwnerPresence(2))
    );
}

#[test]
fn decode_rejects_bad_signature_count_and_trailing_bytes() {
    let chain = naples_chain();
    let mut cert = chain.oca.clone().unwrap();
    cert.sigs.clear();
    let mut encoded = cert.encode();
    // Patch the signature count to three.
    let n = encoded.len();
    encoded[n - 4] = 3;
    assert_eq!(Certificate::decode(&encoded), Err(DecodeError::InvalidSignatureCount(3)));

    let mut with_extra = cert.encode();
    with_extra.push(0);
    assert_eq!(Certificate::decode(&with_extra), Err(DecodeError::Trailing));
}
