//! Certificates of the SEV trust hierarchy and their wire format.
//!
//! A certificate is a fixed binary record: version, usage tag, key-algorithm
//! tag, key material sized by the algorithm, and up to two signature slots,
//! each sized by its own algorithm. The byte layout is compatibility-critical
//! and is pinned here by a specification-level codec that the executable
//! encoder and decoder are proved against.

use vstd::prelude::*;

use crate::codec::{
    copy_range, push_bytes, push_le32, read_le32, lemma_le32_bytes_round_trip,
    lemma_le32_round_trip, spec_le32_bytes, spec_u32_of_le,
};
use crate::crypto::{p256_verify, p256_signature_ok};

verus! {

/// What a certificate's key is for in the trust hierarchy.
#[derive(Clone, Copy, Debug, PartialEq, Eq, Structural)]
pub enum Usage {
    /// AMD Root Key.
    Ark,
    /// AMD Signing Key.
    Ask,
    /// Chip Endorsement Key.
    Cek,
    /// Owner Certificate Authority.
    Oca,
    /// Platform Endorsement Key.
    Pek,
    /// Platform Diffie-Hellman key.
    Pdh,
}

/// The algorithm a certificate's key or signature uses.
#[derive(Clone, Copy, Debug, PartialEq, Eq, Structural)]
pub enum Algorithm {
    /// RSA signing keys, digests with SHA-256.
    RsaSha256,
    /// ECDSA over P-256, digests with SHA-256.
    EcdsaSha256,
    /// ECDH key agreement over P-256.
    EcdhSha256,
}

/// A decoding failure; malformed bytes are never silently defaulted.
#[derive(Clone, Copy, Debug, PartialEq, Eq, Structural)]
pub enum DecodeError {
    /// The input ended before the record did.
    Truncated,
    /// An unrecognized usage tag, kept verbatim.
    InvalidUsage(u32),
    /// An unrecognized algorithm tag, kept verbatim.
    InvalidAlgorithm(u32),
    /// More signature slots announced than the format allows.
    InvalidSignatureCount(u32),
    /// Bytes were left over after the record ended.
    Trailing,
    /// An unrecognized platform generation tag, kept verbatim.
    InvalidGeneration(u32),
    /// An owner-authority presence word outside zero and one, kept verbatim.
    InvalidOwnerPresence(u32),
}

/// Why a signature check between two certificates failed.
#[derive(Clone, Copy, Debug, PartialEq, Eq, Structural)]
pub enum VerifyError {
    /// The signer's usage is not an allowed issuer for the subject.
    UsageMismatch,
    /// No signature by the signer's usage cryptographically validates.
    BadSignature,
    /// The root certificate's key is not the trusted key of its generation.
    UntrustedRoot,
    /// The allowed issuer's signature slots use an algorithm this verifier
    /// cannot check: nothing was cryptographically examined, so the
    /// certificate is unverified rather than rejected.
    UnsupportedAlgorithm,
}

/// The wire tag of a usage.
pub open spec fn spec_usage_tag(u: Usage) -> u32 {
    match u {
        Usage::Ark => 0x0,
        Usage::Ask => 0x13,
        Usage::Oca => 0x1001,
        Usage::Pek => 0x1002,
        Usage::Pdh => 0x1003,
        Usage::Cek => 0x1004,
    }
}

/// The usage a wire tag stands for, if recognized.
pub open spec fn spec_usage_of_tag(t: u32) -> Option<Usage> {
    if t == 0x0 {
        Some(Usage::Ark)
    } else if t == 0x13 {
        Some(Usage::Ask)
    } else if t == 0x1001 {
        Some(Usage::Oca)
    } else if t == 0x1002 {
        Some(Usage::Pek)
    } else if t == 0x1003 {
        Some(Usage::Pdh)
    } else if t == 0x1004 {
        Some(Usage::Cek)
    } else {
        None
    }
}

/// The wire tag of an algorithm.
pub open spec fn spec_algo_tag(a: Algorithm) -> u32 {
    match a {
        Algorithm::RsaSha256 => 0x1,
        Algorithm::EcdsaSha256 => 0x2,
        Algorithm::EcdhSha256 => 0x3,
    }
}

/// The algorithm a wire tag stands for, if recognized.
pub open spec fn spec_algo_of_tag(t: u32) -> Option<Algorithm> {
    if t == 0x1 {
        Some(Algorithm::RsaSha256)
    } else if t == 0x2 {
        Some(Algorithm::EcdsaSha256)
    } else if t == 0x3 {
        Some(Algorithm::EcdhSha256)
    } else {
        None
    }
}

/// The fixed size of a key, by algorithm.
pub open spec fn spec_key_len(a: Algorithm) -> nat {
    match a {
        Algorithm::RsaSha256 => 256,
        Algorithm::EcdsaSha256 => 65,
        Algorithm::EcdhSha256 => 65,
    }
}

/// The fixed size of a signature slot, by algorithm.
pub open spec fn spec_sig_len(a: Algorithm) -> nat {
    match a {
        Algorithm::RsaSha256 => 256,
        Algorithm::EcdsaSha256 => 64,
        Algorithm::EcdhSha256 => 0,
    }
}

/// Whether an algorithm can sign at all.
pub open spec fn spec_is_signing(a: Algorithm) -> bool {
    !(a is EcdhSha256)
}

/// The mathematical image of a signature slot.
pub struct SignatureView {
    /// The usage of the key that produced the signature.
    pub usage: Usage,
    /// The signature algorithm.
    pub algo: Algorithm,
    /// The signature bytes.
    pub bytes: Seq<u8>,
}

/// The mathematical image of a public key.
pub struct PublicKeyView {
    /// The key's algorithm.
    pub algo: Algorithm,
    /// The key material.
    pub bytes: Seq<u8>,
}

/// The mathematical image of a certificate.
pub struct CertificateView {
    /// The format version of the record.
    pub version: u32,
    /// What the certified key is for.
    pub usage: Usage,
    /// The certified public key.
    pub key: PublicKeyView,
    /// Up to two signatures over the certificate body.
    pub sigs: Seq<SignatureView>,
}

/// A well-formed signature slot: a signing algorithm and bytes of its size.
pub open spec fn sig_wf(s: SignatureView) -> bool {
    spec_is_signing(s.algo) && s.bytes.len() == spec_sig_len(s.algo)
}

/// A well-formed key: material of the algorithm's size.
pub open spec fn key_wf(k: PublicKeyView) -> bool {
    k.bytes.len() == spec_key_len(k.algo)
}

/// A well-formed certificate: key and signatures sized right, at most two
/// signature slots.
pub open spec fn cert_wf(c: CertificateView) -> bool {
    &&& key_wf(c.key)
    &&& c.sigs.len() <= 2
    &&& forall|i: int| 0 <= i < c.sigs.len() ==> sig_wf(#[trigger] c.sigs[i])
}

/// One signature slot on the wire: usage tag, algorithm tag, signature bytes.
pub open spec fn spec_encode_sig(s: SignatureView) -> Seq<u8> {
    spec_le32_bytes(spec_usage_tag(s.usage)) + spec_le32_bytes(spec_algo_tag(s.algo)) + s.bytes
}

/// Consecutive signature slots on the wire.
pub open spec fn spec_encode_sigs(ss: Seq<SignatureView>) -> Seq<u8>
    decreases ss.len(),
{
    if ss.len() == 0 {
        Seq::empty()
    } else {
        spec_encode_sig(ss[0]) + spec_encode_sigs(ss.drop_first())
    }
}

/// The signed byte range of a certificate: everything before the signatures.
pub open spec fn spec_encode_body(c: CertificateView) -> Seq<u8> {
    spec_le32_bytes(c.version) + spec_le32_bytes(spec_usage_tag(c.usage)) + spec_le32_bytes(
        spec_algo_tag(c.key.algo)) + c.key.bytes
}

/// A whole certificate on the wire: body, signature count, signature slots.
pub open spec fn spec_encode_cert(c: CertificateView) -> Seq<u8> {
    spec_encode_body(c) + spec_le32_bytes(c.sigs.len() as u32) + spec_encode_sigs(c.sigs)
}

/// Decode exactly `n` signature slots from the front of `s`, giving the slots
/// and the bytes consumed.
pub open spec fn spec_decode_sigs(s: Seq<u8>, n: nat) -> Result<(Seq<SignatureView>, int), DecodeError>
    decreases n,
{
    if n == 0 {
        Ok((Seq::empty(), 0))
    } else if s.len() < 8 {
        Err(DecodeError::Truncated)
    } else {
        let ut = spec_u32_of_le(s.subrange(0, 4));
        let at = spec_u32_of_le(s.subrange(4, 8));
        match spec_usage_of_tag(ut) {
            None => Err(DecodeError::InvalidUsage(ut)),
            Some(u) => match spec_algo_of_tag(at) {
                None => Err(DecodeError::InvalidAlgorithm(at)),
                Some(a) => if !spec_is_signing(a) {
                    Err(DecodeError::InvalidAlgorithm(at))
                } else if s.len() < 8 + spec_sig_len(a) {
                    Err(DecodeError::Truncated)
                } else {
                    let sl = spec_sig_len(a) as int;
                    let sig = SignatureView { usage: u, algo: a, bytes: s.subrange(8, 8 + sl) };
                    match spec_decode_sigs(s.skip(8 + sl), (n - 1) as nat) {
                        Err(e) => Err(e),
                        Ok((rest, used)) => Ok((seq![sig] + rest, 8 + sl + used)),
                    }
                },
            },
        }
    }
}

/// Decode one certificate from the front of `s`, giving it and the bytes
/// consumed.
#[verifier::opaque]
pub open spec fn spec_decode_cert_prefix(s: Seq<u8>) -> Result<(CertificateView, int), DecodeError> {
    if s.len() < 12 {
        Err(DecodeError::Truncated)
    } else {
        let version = spec_u32_of_le(s.subrange(0, 4));
        let ut = spec_u32_of_le(s.subrange(4, 8));
        let at = spec_u32_of_le(s.subrange(8, 12));
        match spec_usage_of_tag(ut) {
            None => Err(DecodeError::InvalidUsage(ut)),
            Some(u) => match spec_algo_of_tag(at) {
                None => Err(DecodeError::InvalidAlgorithm(at)),
                Some(a) => {
                    let kl = spec_key_len(a) as int;
                    if s.len() < 16 + kl {
                        Err(DecodeError::Truncated)
                    } else {
                        let key = PublicKeyView { algo: a, bytes: s.subrange(12, 12 + kl) };
                        let n = spec_u32_of_le(s.subrange(12 + kl, 16 + kl));
                        if n > 2 {
                            Err(DecodeError::InvalidSignatureCount(n))
                        } else {
                            match spec_decode_sigs(s.skip(16 + kl), n as nat) {
                                Err(e) => Err(e),
                                Ok((sigs, used)) => Ok(
                                    (CertificateView { version, usage: u, key, sigs }, 16 + kl + used),
                                ),
                            }
                        }
                    }
                },
            },
        }
    }
}

/// Decoding the encoding of well-formed signature slots, with anything after
/// them, yields the slots back and consumes exactly their bytes.
#[verifier::rlimit(100)]
#[verifier::spinoff_prover]
pub proof fn lemma_sigs_round_trip(ss: Seq<SignatureView>, rest: Seq<u8>)
    requires
        forall|i: int| 0 <= i < ss.len() ==> sig_wf(#[trigger] ss[i]),
    ensures
        spec_decode_sigs(spec_encode_sigs(ss) + rest, ss.len()) == Ok::<_, DecodeError>(
            (ss, spec_encode_sigs(ss).len() as int),
        ),
    decreases ss.len(),
{
    if ss.len() == 0 {
        assert(spec_encode_sigs(ss) + rest =~= rest);
        assert(ss =~= Seq::<SignatureView>::empty());
    } else {
        let s0 = ss[0];
        let tail = ss.drop_first();
        let enc0 = spec_encode_sig(s0);
        let enc_tail = spec_encode_sigs(tail);
        let s = spec_encode_sigs(ss) + rest;
        let sl = spec_sig_len(s0.algo) as int;
        assert(enc0.len() == 8 + sl);
        assert(s =~= enc0 + (enc_tail + rest));
        assert(s.subrange(0, 4) =~= spec_le32_bytes(spec_usage_tag(s0.usage)));
        assert(s.subrange(4, 8) =~= spec_le32_bytes(spec_algo_tag(s0.algo)));
        lemma_le32_round_trip(spec_usage_tag(s0.usage));
        lemma_le32_round_trip(spec_algo_tag(s0.algo));
        assert(spec_usage_of_tag(spec_usage_tag(s0.usage)) == Some(s0.usage));
        assert(spec_algo_of_tag(spec_algo_tag(s0.algo)) == Some(s0.algo));
        assert(s.subrange(8, 8 + sl) =~= s0.bytes);
        assert(s.skip(8 + sl) =~= enc_tail + rest);
        lemma_sigs_round_trip(tail, rest);
        assert(seq![s0] + tail =~= ss);
        assert(spec_encode_sigs(ss).len() == 8 + sl + enc_tail.len());
    }
}

/// Decoding the encoding of a well-formed certificate, with anything after
/// it, yields the certificate back and consumes exactly its bytes.
#[verifier::rlimit(100)]
pub proof fn lemma_cert_round_trip(c: CertificateView, rest: Seq<u8>)
    requires
        cert_wf(c),
    ensures
        spec_decode_cert_prefix(spec_encode_cert(c) + rest) == Ok::<_, DecodeError>(
            (c, spec_encode_cert(c).len() as int),
        ),
{
    reveal(spec_decode_cert_prefix);
    let s = spec_encode_cert(c) + rest;
    let kl = spec_key_len(c.key.algo) as int;
    let enc_sigs = spec_encode_sigs(c.sigs);
    assert(s =~= spec_le32_bytes(c.version) + spec_le32_bytes(spec_usage_tag(c.usage))
        + spec_le32_bytes(spec_algo_tag(c.key.algo)) + c.key.bytes + spec_le32_bytes(
        c.sigs.len() as u32) + enc_sigs + rest);
    assert(s.len() == 16 + kl + enc_sigs.len() + rest.len());
    assert(s.subrange(0, 4) =~= spec_le32_bytes(c.version));
    assert(s.subrange(4, 8) =~= spec_le32_bytes(spec_usage_tag(c.usage)));
    assert(s.subrange(8, 12) =~= spec_le32_bytes(spec_algo_tag(c.key.algo)));
    lemma_le32_round_trip(c.version);
    lemma_le32_round_trip(spec_usage_tag(c.usage));
    lemma_le32_round_trip(spec_algo_tag(c.key.algo));
    assert(s.subrange(12, 12 + kl) =~= c.key.bytes);
    assert(s.subrange(12 + kl, 16 + kl) =~= spec_le32_bytes(c.sigs.len() as u32));
    lemma_le32_round_trip(c.sigs.len() as u32);
    assert(s.skip(16 + kl) =~= enc_sigs + rest);
    lemma_sigs_round_trip(c.sigs, rest);
    assert(PublicKeyView { algo: c.key.algo, bytes: s.subrange(12, 12 + kl) } == c.key);
}

/// Any byte prefix the signature-slot decoder accepts is exactly the
/// encoding of the well-formed slots it returns.
#[verifier::rlimit(100)]
#[verifier::spinoff_prover]
pub proof fn lemma_sigs_canonical(s: Seq<u8>, n: nat)
    requires
        spec_decode_sigs(s, n) is Ok,
    ensures
        ({
            let (ss, used) = spec_decode_sigs(s, n)->Ok_0;
            &&& 0 <= used <= s.len()
            &&& ss.len() == n
            &&& (forall|i: int| 0 <= i < ss.len() ==> sig_wf(#[trigger] ss[i]))
            &&& spec_encode_sigs(ss) == s.subrange(0, used)
        }),
    decreases n,
{
    if n == 0 {
        assert(spec_encode_sigs(Seq::<SignatureView>::empty()) =~= s.subrange(0, 0));
    } else {
        let ut = spec_u32_of_le(s.subrange(0, 4));
        let at = spec_u32_of_le(s.subrange(4, 8));
        match spec_usage_of_tag(ut) {
            None => {
                assert(false);
            },
            Some(u) => match spec_algo_of_tag(at) {
                None => {
                    assert(false);
                },
                Some(a) => {
                    let sl = spec_sig_len(a) as int;
                    let sig = SignatureView { usage: u, algo: a, bytes: s.subrange(8, 8 + sl) };
                    lemma_sigs_canonical(s.skip(8 + sl), (n - 1) as nat);
                    let (rest, used_rest) = spec_decode_sigs(
                        s.skip(8 + sl),
                        (n - 1) as nat,
                    )->Ok_0;
                    let ss = seq![sig] + rest;
                    assert(ss[0] == sig);
                    assert(ss.drop_first() =~= rest);
                    assert(spec_usage_tag(u) == ut);
                    assert(spec_algo_tag(a) == at);
                    lemma_le32_bytes_round_trip(s.subrange(0, 4));
                    lemma_le32_bytes_round_trip(s.subrange(4, 8));
                    assert(sig_wf(sig));
                    assert(spec_encode_sig(sig) =~= s.subrange(0, 8 + sl));
                    assert(spec_encode_sigs(rest) == s.skip(8 + sl).subrange(0, used_rest));
                    assert(spec_encode_sigs(ss) =~= s.subrange(0, 8 + sl + used_rest));
                },
            },
        }
    }
}

/// Any byte prefix the certificate decoder accepts is exactly the encoding
/// of the well-formed certificate it returns: together with the round trip
/// above, the wire format is canonical in both directions.
#[verifier::rlimit(100)]
#[verifier::spinoff_prover]
pub proof fn lemma_cert_canonical(s: Seq<u8>)
    requires
        spec_decode_cert_prefix(s) is Ok,
    ensures
        ({
            let (c, used) = spec_decode_cert_prefix(s)->Ok_0;
            &&& 0 <= used <= s.len()
            &&& cert_wf(c)
            &&& spec_encode_cert(c) == s.subrange(0, used)
        }),
{
    reveal(spec_decode_cert_prefix);
    let ut = spec_u32_of_le(s.subrange(4, 8));
    let at = spec_u32_of_le(s.subrange(8, 12));
    match spec_usage_of_tag(ut) {
        None => {
            assert(false);
        },
        Some(u) => match spec_algo_of_tag(at) {
            None => {
                assert(false);
            },
            Some(a) => {
                let kl = spec_key_len(a) as int;
                let n = spec_u32_of_le(s.subrange(12 + kl, 16 + kl));
                lemma_sigs_canonical(s.skip(16 + kl), n as nat);
                let (sigs, used_sigs) = spec_decode_sigs(s.skip(16 + kl), n as nat)->Ok_0;
                let c = spec_decode_cert_prefix(s)->Ok_0.0;
                assert(c.sigs == sigs && c.usage == u && c.key.algo == a);
                assert(spec_usage_tag(u) == ut);
                assert(spec_algo_tag(a) == at);
                lemma_le32_bytes_round_trip(s.subrange(0, 4));
                lemma_le32_bytes_round_trip(s.subrange(4, 8));
                lemma_le32_bytes_round_trip(s.subrange(8, 12));
                lemma_le32_bytes_round_trip(s.subrange(12 + kl, 16 + kl));
                assert(sigs.len() == n as nat);
                assert(sigs.len() as u32 == n);
                assert(spec_encode_body(c) =~= s.subrange(0, 12 + kl));
                assert(spec_encode_sigs(sigs) == s.skip(16 + kl).subrange(0, used_sigs));
                assert(spec_encode_cert(c) =~= s.subrange(0, 16 + kl + used_sigs));
                assert(cert_wf(c));
            },
        },
    }
}

/// A signature slot of a certificate.
#[derive(Clone, Debug, PartialEq)]
pub struct Signature {
    /// The usage of the key that produced the signature.
    pub usage: Usage,
    /// The signature algorithm.
    pub algo: Algorithm,
    /// The signature bytes.
    pub bytes: Vec<u8>,
}

impl View for Signature {
    type V = SignatureView;

    open spec fn view(&self) -> SignatureView {
        SignatureView { usage: self.usage, algo: self.algo, bytes: self.bytes@ }
    }
}

/// A certified public key.
#[derive(Clone, Debug, PartialEq)]
pub struct PublicKey {
    /// The key's algorithm.
    pub algo: Algorithm,
    /// The key material.
    pub bytes: Vec<u8>,
}

impl View for PublicKey {
    type V = PublicKeyView;

    open spec fn view(&self) -> PublicKeyView {
        PublicKeyView { algo: self.algo, bytes: self.bytes@ }
    }
}

/// A certificate of the SEV trust hierarchy. Immutable once decoded.
#[derive(Clone, Debug, PartialEq)]
pub struct Certificate {
    /// The format version of the record.
    pub version: u32,
    /// What the certified key is for.
    pub usage: Usage,
    /// The certified public key.
    pub key: PublicKey,
    /// Up to two signatures over the certificate body.
    pub sigs: Vec<Signature>,
}

impl View for Certificate {
    type V = CertificateView;

    open spec fn view(&self) -> CertificateView {
        CertificateView {
            version: self.version,
            usage: self.usage,
            key: self.key@,
            sigs: self.sigs@.map_values(|s: Signature| s@),
        }
    }
}

/// The wire tag of a usage.
pub fn usage_tag(u: Usage) -> (r: u32)
    ensures
        r == spec_usage_tag(u),
{
    match u {
        Usage::Ark => 0x0,
        Usage::Ask => 0x13,
        Usage::Oca => 0x1001,
        Usage::Pek => 0x1002,
        Usage::Pdh => 0x1003,
        Usage::Cek => 0x1004,
    }
}

/// The usage a wire tag stands for, if recognized.
pub fn usage_of_tag(t: u32) -> (r: Option<Usage>)
    ensures
        r == spec_usage_of_tag(t),
{
    match t {
        0x0 => Some(Usage::Ark),
        0x13 => Some(Usage::Ask),
        0x1001 => Some(Usage::Oca),
        0x1002 => Some(Usage::Pek),
        0x1003 => Some(Usage::Pdh),
        0x1004 => Some(Usage::Cek),
        _ => None,
    }
}

/// The wire tag of an algorithm.
pub fn algo_tag(a: Algorithm) -> (r: u32)
    ensures
        r == spec_algo_tag(a),
{
    match a {
        Algorithm::RsaSha256 => 0x1,
        Algorithm::EcdsaSha256 => 0x2,
        Algorithm::EcdhSha256 => 0x3,
    }
}

/// The algorithm a wire tag stands for, if recognized.
pub fn algo_of_tag(t: u32) -> (r: Option<Algorithm>)
    ensures
        r == spec_algo_of_tag(t),
{
    match t {
        0x1 => Some(Algorithm::RsaSha256),
        0x2 => Some(Algorithm::EcdsaSha256),
        0x3 => Some(Algorithm::EcdhSha256),
        _ => None,
    }
}

/// The fixed size of a key, by algorithm.
pub fn key_len(a: Algorithm) -> (r: usize)
    ensures
        r == spec_key_len(a),
{
    match a {
        Algorithm::RsaSha256 => 256,
        Algorithm::EcdsaSha256 => 65,
        Algorithm::EcdhSha256 => 65,
    }
}

/// The fixed size of a signature slot, by algorithm.
pub fn sig_len(a: Algorithm) -> (r: usize)
    ensures
        r == spec_sig_len(a),
{
    match a {
        Algorithm::RsaSha256 => 256,
        Algorithm::EcdsaSha256 => 64,
        Algorithm::EcdhSha256 => 0,
    }
}

impl Certificate {
    /// Whether the in-memory certificate is well-formed.
    pub fn is_well_formed(&self) -> (r: bool)
        ensures
            r == cert_wf(self@),
    {
        let ok_key = self.key.bytes.len() == key_len(self.key.algo);
        let ok_count = self.sigs.len() <= 2;
        let mut ok_sigs = true;
        let mut i: usize = 0;
        while i < self.sigs.len()
            invariant
                i <= self.sigs@.len(),
                ok_sigs == forall|j: int| 0 <= j < i ==> sig_wf(#[trigger] self@.sigs[j]),
                self@.sigs.len() == self.sigs@.len(),
            decreases self.sigs@.len() - i,
        {
            let s = &self.sigs[i];
            let this_ok = (match s.algo {
                Algorithm::EcdhSha256 => false,
                _ => true,
            }) && s.bytes.len() == sig_len(s.algo);
            assert(this_ok == sig_wf(self@.sigs[i as int]));
            ok_sigs = ok_sigs && this_ok;
            i = i + 1;
        }
        ok_key && ok_count && ok_sigs
    }

    /// The signed byte range: the encoded body, without the signatures.
    pub fn encode_body(&self) -> (r: Vec<u8>)
        ensures
            r@ == spec_encode_body(self@),
    {
        let mut out: Vec<u8> = Vec::new();
        push_le32(&mut out, self.version);
        push_le32(&mut out, usage_tag(self.usage));
        push_le32(&mut out, algo_tag(self.key.algo));
        push_bytes(&mut out, self.key.bytes.as_slice());
        assert(out@ =~= spec_encode_body(self@));
        out
    }

    /// Encode the certificate in its wire format.
    pub fn encode(&self) -> (r: Vec<u8>)
        requires
            cert_wf(self@),
        ensures
            r@ == spec_encode_cert(self@),
    {
        let mut out = self.encode_body();
        push_le32(&mut out, self.sigs.len() as u32);
        let ghost pre = out@;
        let mut i: usize = 0;
        while i < self.sigs.len()
            invariant
                i <= self.sigs@.len(),
                self@.sigs.len() == self.sigs@.len(),
                out@ == pre + spec_encode_sigs(self@.sigs.take(i as int)),
                forall|j: int| 0 <= j < self@.sigs.len() ==> sig_wf(#[trigger] self@.sigs[j]),
            decreases self.sigs@.len() - i,
        {
            let s = &self.sigs[i];
            push_le32(&mut out, usage_tag(s.usage));
            push_le32(&mut out, algo_tag(s.algo));
            push_bytes(&mut out, s.bytes.as_slice());
            proof {
                lemma_encode_sigs_snoc(self@.sigs, i as int);
                assert(out@ =~= pre + spec_encode_sigs(self@.sigs.take(i + 1)));
            }
            i = i + 1;
        }
        proof {
            assert(self@.sigs.take(self@.sigs.len() as int) =~= self@.sigs);
            assert(out@ =~= spec_encode_cert(self@));
        }
        out
    }

    /// Decode one certificate starting at `at`, returning it and the offset
    /// just past it.
    #[verifier::rlimit(100)]
    pub fn decode_prefix(bytes: &[u8], at: usize) -> (r: Result<(Certificate, usize), DecodeError>)
        requires
            at <= bytes@.len(),
        ensures
            r matches Ok(p) ==> spec_decode_cert_prefix(bytes@.skip(at as int)) == Ok::<
                _,
                DecodeError,
            >((p.0@, p.1 - at)) && cert_wf(p.0@) && at < p.1 <= bytes@.len(),
            r matches Err(e) ==> spec_decode_cert_prefix(bytes@.skip(at as int)) == Err::<
                (CertificateView, int),
                _,
            >(e),
    {
        proof {
            reveal(spec_decode_cert_prefix);
        }
        let ghost s = bytes@.skip(at as int);
        let blen = bytes.len();
        if blen - at < 12 {
            return Err(DecodeError::Truncated);
        }
        let version = read_le32(bytes, at);
        let ut = read_le32(bytes, at + 4);
        let at_tag = read_le32(bytes, at + 8);
        proof {
            assert(s.subrange(0, 4) =~= bytes@.subrange(at as int, at + 4));
            assert(s.subrange(4, 8) =~= bytes@.subrange(at + 4, at + 8));
            assert(s.subrange(8, 12) =~= bytes@.subrange(at + 8, at + 12));
        }
        let usage = match usage_of_tag(ut) {
            Some(u) => u,
            None => { return Err(DecodeError::InvalidUsage(ut)); },
        };
        let algo = match algo_of_tag(at_tag) {
            Some(a) => a,
            None => { return Err(DecodeError::InvalidAlgorithm(at_tag)); },
        };
        let kl = key_len(algo);
        if blen - at - 12 < kl + 4 {
            return Err(DecodeError::Truncated);
        }
        let key_bytes = copy_range(bytes, at + 12, kl);
        let n = read_le32(bytes, at + 12 + kl);
        proof {
            assert(s.subrange(12, 12 + kl as int) =~= bytes@.subrange(at + 12, at + 12 + kl));
            assert(s.subrange(12 + kl as int, 16 + kl as int) =~= bytes@.subrange(
                at + 12 + kl,
                at + 16 + kl,
            ));
        }
        if n > 2 {
            return Err(DecodeError::InvalidSignatureCount(n));
        }
        let mut sigs: Vec<Signature> = Vec::new();
        let mut off: usize = at + 16 + kl;
        let ghost sig_start = off as int;
        proof {
            assert(s.skip(16 + kl as int) =~= bytes@.skip(sig_start));
        }
        let mut i: u32 = 0;
        #[verifier::loop_isolation(false)]
        while i < n
            invariant
                i <= n,
                n <= 2,
                at + 16 + kl == sig_start,
                sig_start <= off <= blen,
                blen == bytes@.len(),
                sigs@.len() == i,
                forall|j: int| 0 <= j < sigs@.len() ==> sig_wf(#[trigger] sigs@[j]@),
                spec_decode_sigs(bytes@.skip(sig_start), n as nat) == (match spec_decode_sigs(
                    bytes@.skip(off as int),
                    (n - i) as nat,
                ) {
                    Ok((rest, used)) => Ok::<(Seq<SignatureView>, int), DecodeError>(
                        (sigs@.map_values(|sg: Signature| sg@) + rest, off - sig_start + used),
                    ),
                    Err(e) => Err(e),
                }),
            decreases n - i,
        {
            let ghost s_here = bytes@.skip(off as int);
            let ghost m = (n - i) as nat;
            if blen - off < 8 {
                proof {
                    assert(s_here.len() < 8 && m > 0);
                    assert(spec_decode_sigs(s_here, m) == Err::<(Seq<SignatureView>, int), _>(
                        DecodeError::Truncated,
                    ));
                }
                return Err(DecodeError::Truncated);
            }
            let sut = read_le32(bytes, off);
            let sat = read_le32(bytes, off + 4);
            proof {
                assert(s_here.subrange(0, 4) =~= bytes@.subrange(off as int, off + 4));
                assert(s_here.subrange(4, 8) =~= bytes@.subrange(off + 4, off + 8));
            }
            let su = match usage_of_tag(sut) {
                Some(u) => u,
                None => {
                    proof {
                        assert(spec_decode_sigs(s_here, m) == Err::<(Seq<SignatureView>, int), _>(
                            DecodeError::InvalidUsage(sut),
                        ));
                    }
                    return Err(DecodeError::InvalidUsage(sut));
                },
            };
            let sa = match algo_of_tag(sat) {
                Some(a) => a,
                None => {
                    proof {
                        assert(spec_decode_sigs(s_here, m) == Err::<(Seq<SignatureView>, int), _>(
                            DecodeError::InvalidAlgorithm(sat),
                        ));
                    }
                    return Err(DecodeError::InvalidAlgorithm(sat));
                },
            };
            let signing = match sa {
                Algorithm::EcdhSha256 => false,
                _ => true,
            };
            if !signing {
                proof {
                    assert(spec_decode_sigs(s_here, m) == Err::<(Seq<SignatureView>, int), _>(
                        DecodeError::InvalidAlgorithm(sat),
                    ));
                }
                return Err(DecodeError::InvalidAlgorithm(sat));
            }
            let sl = sig_len(sa);
            if blen - off - 8 < sl {
                proof {
                    assert(s_here.len() < 8 + sl && m > 0);
                    assert(spec_decode_sigs(s_here, m) == Err::<(Seq<SignatureView>, int), _>(
                        DecodeError::Truncated,
                    ));
                }
                return Err(DecodeError::Truncated);
            }
            let sig_bytes = copy_range(bytes, off + 8, sl);
            proof {
                assert(s_here.subrange(8, 8 + sl as int) =~= bytes@.subrange(off + 8, off + 8 + sl));
                assert(s_here.skip(8 + sl as int) =~= bytes@.skip(off + 8 + sl));
            }
            let sig = Signature { usage: su, algo: sa, bytes: sig_bytes };
            let ghost old_prefix = sigs@.map_values(|sg: Signature| sg@);
            let ghost sigv = sig@;
            sigs.push(sig);
            proof {
                let new_prefix = sigs@.map_values(|sg: Signature| sg@);
                assert(new_prefix =~= old_prefix + seq![sigv]);
                let s_next = bytes@.skip(off + 8 + sl);
                assert(spec_decode_sigs(s_here, m) == (match spec_decode_sigs(
                    s_next,
                    (m - 1) as nat,
                ) {
                    Ok((rest, used)) => Ok::<(Seq<SignatureView>, int), DecodeError>(
                        (seq![sigv] + rest, 8 + sl + used),
                    ),
                    Err(e) => Err(e),
                }));
                match spec_decode_sigs(s_next, (m - 1) as nat) {
                    Ok((rest, used)) => {
                        assert(old_prefix + (seq![sigv] + rest) =~= new_prefix + rest);
                    },
                    Err(_) => {},
                }
            }
            off = off + 8 + sl;
            i = i + 1;
        }
        let cert = Certificate { version, usage, key: PublicKey { algo, bytes: key_bytes }, sigs };
        proof {
            let prefix = sigs@.map_values(|sg: Signature| sg@);
            assert(spec_decode_sigs(bytes@.skip(off as int), 0) == Ok::<
                (Seq<SignatureView>, int),
                DecodeError,
            >((Seq::empty(), 0)));
            assert(prefix + Seq::<SignatureView>::empty() =~= prefix);
            assert(spec_decode_sigs(bytes@.skip(sig_start), n as nat) == Ok::<
                (Seq<SignatureView>, int),
                DecodeError,
            >((prefix, off - sig_start)));
            assert(cert@.sigs =~= prefix);
            assert(cert@.key.bytes =~= bytes@.subrange(at + 12, at + 12 + kl));
        }
        Ok((cert, off))
    }

    /// Decode a certificate that fills the whole input; leftover bytes are an
    /// error, never ignored.
    pub fn decode(bytes: &[u8]) -> (r: Result<Certificate, DecodeError>)
        ensures
            r matches Ok(c) ==> spec_decode_cert_prefix(bytes@) == Ok::<_, DecodeError>(
                (c@, bytes@.len() as int),
            ) && cert_wf(c@),
            r matches Err(e) ==> match spec_decode_cert_prefix(bytes@) {
                Ok(p) => p.1 < bytes@.len() && e == DecodeError::Trailing,
                Err(e2) => e == e2,
            },
    {
        proof {
            assert(bytes@.skip(0) =~= bytes@);
        }
        match Self::decode_prefix(bytes, 0) {
            Ok((c, used)) => {
                if used == bytes.len() {
                    Ok(c)
                } else {
                    Err(DecodeError::Trailing)
                }
            },
            Err(e) => Err(e),
        }
    }
}

/// Whether a signer's usage is an allowed issuer for a subject's usage.
///
/// The platform Diffie-Hellman key is endorsed by the platform endorsement
/// key, or self-signed on generations that issue it so; the endorsement key
/// is endorsed by the owner's certificate authority, or by the chip
/// endorsement key on self-owned platforms; the chip endorsement key is
/// signed by the AMD signing key, which the AMD root key signs. The two
/// authorities sign themselves.
pub open spec fn spec_usage_allowed(signer: Usage, subject: Usage) -> bool {
    match subject {
        Usage::Pdh => signer is Pek || signer is Pdh,
        Usage::Pek => signer is Oca || signer is Cek,
        Usage::Oca => signer is Oca,
        Usage::Cek => signer is Ask,
        Usage::Ask => signer is Ark,
        Usage::Ark => signer is Ark,
    }
}

/// Whether one signature slot of `subject` can be checked under `signer` at
/// all: the slot was made by the signer's usage, and slot and signer key use
/// the checkable ECDSA-P-256 profile.
pub open spec fn spec_sig_checkable(signer: CertificateView, sig: SignatureView) -> bool {
    &&& sig.usage == signer.usage
    &&& sig.algo is EcdsaSha256
    &&& signer.key.algo is EcdsaSha256
}

/// Whether the subject carries any slot checkable under the signer.
pub open spec fn spec_has_checkable_sig(signer: CertificateView, subject: CertificateView) -> bool {
    exists|i: int|
        0 <= i < subject.sigs.len() && spec_sig_checkable(signer, #[trigger] subject.sigs[i])
}

/// Whether one signature slot of `subject` is a signature by `signer` that
/// cryptographically validates over the subject's signed byte range.
///
/// Only the ECDSA-P-256 profile is checkable; a slot under any other
/// algorithm never validates.
pub open spec fn spec_sig_accepts(
    signer: CertificateView,
    subject: CertificateView,
    sig: SignatureView,
) -> bool {
    &&& spec_sig_checkable(signer, sig)
    &&& p256_signature_ok(signer.key.bytes, spec_encode_body(subject), sig.bytes)
}

/// Whether `signer` validly certifies `subject`: the usages are compatible
/// and some signature slot of the subject validates under the signer's key.
pub open spec fn spec_pair_verifies(signer: CertificateView, subject: CertificateView) -> bool {
    &&& spec_usage_allowed(signer.usage, subject.usage)
    &&& exists|i: int|
        0 <= i < subject.sigs.len() && spec_sig_accepts(signer, subject, #[trigger] subject.sigs[i])
}

/// Check that `signer` validly certifies `subject`: the signer's usage must
/// be the subject's allowed issuer, and some signature slot of the subject
/// must validate under the signer's public key over the subject's signed
/// byte range. A subject with no checkable slot could not be verified at
/// all, which is told apart from one whose checkable signature was rejected.
pub fn verify(signer: &Certificate, subject: &Certificate) -> (r: Result<(), VerifyError>)
    ensures
        r is Ok <==> spec_pair_verifies(signer@, subject@),
        r == Err::<(), VerifyError>(VerifyError::UsageMismatch) <==> !spec_usage_allowed(
            signer@.usage,
            subject@.usage,
        ),
        r == Err::<(), VerifyError>(VerifyError::UnsupportedAlgorithm) <==> (spec_usage_allowed(
            signer@.usage,
            subject@.usage,
        ) && !spec_has_checkable_sig(signer@, subject@)),
        r == Err::<(), VerifyError>(VerifyError::BadSignature) <==> (spec_usage_allowed(
            signer@.usage,
            subject@.usage,
        ) && spec_has_checkable_sig(signer@, subject@) && !spec_pair_verifies(signer@, subject@)),
{
    let allowed = match subject.usage {
        Usage::Pdh => matches!(signer.usage, Usage::Pek | Usage::Pdh),
        Usage::Pek => matches!(signer.usage, Usage::Oca | Usage::Cek),
        Usage::Oca => matches!(signer.usage, Usage::Oca),
        Usage::Cek => matches!(signer.usage, Usage::Ask),
        Usage::Ask => matches!(signer.usage, Usage::Ark),
        Usage::Ark => matches!(signer.usage, Usage::Ark),
    };
    if !allowed {
        return Err(VerifyError::UsageMismatch);
    }
    let body = subject.encode_body();
    let mut checkable = false;
    let mut i: usize = 0;
    #[verifier::loop_isolation(false)]
    while i < subject.sigs.len()
        invariant
            i <= subject.sigs@.len(),
            forall|j: int| 0 <= j < i ==> !spec_sig_accepts(signer@, subject@, #[trigger] subject@.sigs[j]),
            checkable == exists|j: int|
                0 <= j < i && spec_sig_checkable(signer@, #[trigger] subject@.sigs[j]),
        decreases subject.sigs@.len() - i,
    {
        let sig = &subject.sigs[i];
        let usage_match = match (sig.usage, signer.usage) {
            (Usage::Ark, Usage::Ark) => true,
            (Usage::Ask, Usage::Ask) => true,
            (Usage::Cek, Usage::Cek) => true,
            (Usage::Oca, Usage::Oca) => true,
            (Usage::Pek, Usage::Pek) => true,
            (Usage::Pdh, Usage::Pdh) => true,
            _ => false,
        };
        let algos_ok = matches!(sig.algo, Algorithm::EcdsaSha256) && matches!(
            signer.key.algo,
            Algorithm::EcdsaSha256,
        );
        if usage_match && algos_ok {
            assert(spec_sig_checkable(signer@, subject@.sigs[i as int]));
            checkable = true;
            if p256_verify(signer.key.bytes.as_slice(), body.as_slice(), sig.bytes.as_slice()) {
                assert(spec_sig_accepts(signer@, subject@, subject@.sigs[i as int]));
                return Ok(());
            }
        } else {
            assert(!spec_sig_checkable(signer@, subject@.sigs[i as int]));
        }
        assert(!spec_sig_accepts(signer@, subject@, subject@.sigs[i as int]));
        i = i + 1;
    }
    if checkable {
        Err(VerifyError::BadSignature)
    } else {
        Err(VerifyError::UnsupportedAlgorithm)
    }
}

/// Encoding one more signature slot extends the encoding of the slots before
/// it.
pub proof fn lemma_encode_sigs_snoc(ss: Seq<SignatureView>, i: int)
    requires
        0 <= i < ss.len(),
    ensures
        spec_encode_sigs(ss.take(i + 1)) == spec_encode_sigs(ss.take(i)) + spec_encode_sig(ss[i]),
    decreases i,
{
    if i == 0 {
        assert(ss.take(1) =~= seq![ss[0]]);
        assert(ss.take(1).drop_first() =~= Seq::<SignatureView>::empty());
        assert(spec_encode_sigs(ss.take(0)) =~= Seq::<u8>::empty());
        assert(ss.take(1).len() == 1 && ss.take(1)[0] == ss[0]);
        assert(spec_encode_sigs(ss.take(1)) == spec_encode_sig(ss.take(1)[0]) + spec_encode_sigs(
            ss.take(1).drop_first(),
        ));
        assert(spec_encode_sigs(ss.take(1).drop_first()) == Seq::<u8>::empty());
        assert(spec_encode_sig(ss[0]) + Seq::<u8>::empty() =~= spec_encode_sig(ss[0]));
    } else {
        let t1 = ss.take(i + 1);
        let t0 = ss.take(i);
        assert(t1[0] == ss[0] && t0[0] == ss[0]);
        assert(t1.drop_first() =~= ss.drop_first().take(i));
        assert(t0.drop_first() =~= ss.drop_first().take(i - 1));
        lemma_encode_sigs_snoc(ss.drop_first(), i - 1);
        assert(ss.drop_first()[i - 1] == ss[i]);
        assert(spec_encode_sigs(t1) =~= spec_encode_sig(ss[0]) + spec_encode_sigs(
            ss.drop_first().take(i),
        ));
        assert(spec_encode_sigs(t0) + spec_encode_sig(ss[i]) =~= spec_encode_sig(ss[0]) + (
        spec_encode_sigs(ss.drop_first().take(i - 1)) + spec_encode_sig(ss[i])));
    }
}

} // verus!
