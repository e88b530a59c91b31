//! The launch session: key agreement, transport keys, and measurement.
//!
//! A session walks a fixed sequence of stages, each a distinct type that
//! consumes the one before it: a fresh `Session` agrees on a shared secret
//! with the platform's Diffie-Hellman key and becomes a `StartedSession`;
//! feeding guest memory and measuring gives a `MeasuredSession`; checking
//! the firmware's measurement gives a `VerifiedSession`, the only stage that
//! can encrypt secrets — so a secret can never be produced before the guest
//! measurement is verified.

use vstd::prelude::*;

use crate::certs::Algorithm;
use crate::chain::Chain;
use crate::codec::{bytes_eq, copy_range, push_bytes, push_le32, spec_le32_bytes};
use crate::crypto::{
    aes128_ctr_apply, aes128_ctr_of, hmac_sha256, hmac_sha256_of, p256_ecdh, p256_ecdh_ok,
    p256_generate, p256_public_of, p256_shared_secret_of, random_bytes_16, sha256, sha256_of,
};
use crate::policy::{spec_policy_bits, Policy};
use crate::Build;

verus! {

/// Why a session operation failed.
#[derive(Clone, Copy, Debug, PartialEq, Eq, Structural)]
pub enum SessionError {
    /// The chain's key algorithm matches no known key-derivation profile.
    UnsupportedGeneration,
    /// The platform Diffie-Hellman public key could not be used for key
    /// agreement.
    InvalidPdhKey,
    /// The firmware measurement does not match the expected one, or its
    /// integrity tag fails; always fatal.
    BadMeasurement,
}

/// A firmware-reported launch measurement: the digest over the launched
/// guest, and an integrity tag over the digest and build under the session's
/// transport integrity key.
#[derive(Clone, Debug, PartialEq)]
pub struct Measurement {
    /// The measurement digest.
    pub digest: Vec<u8>,
    /// The integrity tag over digest and build.
    pub mac: Vec<u8>,
}

/// The launch-start blob handed to the platform: the policy, the session
/// nonce, and the session's own Diffie-Hellman public key.
#[derive(Clone, Debug, PartialEq)]
pub struct Start {
    /// The guest policy.
    pub policy: Policy,
    /// The session nonce.
    pub nonce: Vec<u8>,
    /// The session's ephemeral public key, SEC1-encoded.
    pub public_key: Vec<u8>,
}

/// Flags carried in an injected secret's header.
#[derive(Clone, Copy, Debug, PartialEq, Eq, Structural)]
pub struct HeaderFlags {
    /// The raw flag word.
    pub bits: u32,
}

impl Default for HeaderFlags {
    /// No flag set.
    fn default() -> (r: HeaderFlags)
        ensures
            r.bits == 0,
    {
        HeaderFlags { bits: 0 }
    }
}

/// A secret ready for injection: header flags, the cipher nonce, the
/// ciphertext under the transport encryption key, and an integrity tag under
/// the transport integrity key.
#[derive(Clone, Debug, PartialEq)]
pub struct Secret {
    /// Header flags.
    pub flags: HeaderFlags,
    /// The fresh cipher nonce.
    pub iv: Vec<u8>,
    /// The encrypted payload.
    pub ciphertext: Vec<u8>,
    /// The integrity tag over flags, nonce and ciphertext.
    pub mac: Vec<u8>,
}

/// The policy word as it enters the measurement, little-endian.
pub open spec fn spec_policy_le_bytes(p: Policy) -> Seq<u8> {
    spec_le32_bytes(spec_policy_bits(p))
}

/// The build metadata as it enters the measurement tag: major, minor, then
/// the build number little-endian.
pub open spec fn spec_build_bytes(b: Build) -> Seq<u8> {
    seq![b.version.major, b.version.minor] + spec_le32_bytes(b.build)
}

/// The transport encryption key: the first half of a key derived from the
/// shared secret and the session nonce.
pub open spec fn spec_tek(shared: Seq<u8>, nonce: Seq<u8>) -> Seq<u8> {
    hmac_sha256_of(shared, seq![1u8] + nonce).subrange(0, 16)
}

/// The transport integrity key, derived from the shared secret and the
/// session nonce.
pub open spec fn spec_tik(shared: Seq<u8>, nonce: Seq<u8>) -> Seq<u8> {
    hmac_sha256_of(shared, seq![2u8] + nonce)
}

/// The expected launch measurement digest: the hash over the guest bytes in
/// feeding order, then the policy word, then the session nonce.
pub open spec fn spec_expected_digest(policy: Policy, data: Seq<u8>, nonce: Seq<u8>) -> Seq<u8> {
    sha256_of(data + spec_policy_le_bytes(policy) + nonce)
}

/// The integrity tag expected over a measurement digest and the firmware
/// build, under the transport integrity key.
pub open spec fn spec_measure_mac(tik: Seq<u8>, digest: Seq<u8>, build: Build) -> Seq<u8> {
    hmac_sha256_of(tik, digest + spec_build_bytes(build))
}

/// When a firmware measurement is accepted against a locally expected
/// digest: the digests are byte-identical and the tag over digest and build
/// validates under the transport integrity key.
pub open spec fn spec_verify_accepts(
    expected: Seq<u8>,
    tik: Seq<u8>,
    msr_digest: Seq<u8>,
    msr_mac: Seq<u8>,
    build: Build,
) -> bool {
    msr_digest == expected && msr_mac == spec_measure_mac(tik, msr_digest, build)
}

/// Measuring the same byte sequence, policy and nonce again yields the same
/// expected digest, and a firmware measurement carrying that digest with its
/// honest tag is always accepted: verification after an identical replay of
/// `update_data` calls succeeds.
pub proof fn lemma_replayed_measurement_accepted(
    policy: Policy,
    data: Seq<u8>,
    nonce: Seq<u8>,
    tik: Seq<u8>,
    build: Build,
)
    ensures
        spec_verify_accepts(
            spec_expected_digest(policy, data, nonce),
            tik,
            spec_expected_digest(policy, data, nonce),
            spec_measure_mac(tik, spec_expected_digest(policy, data, nonce), build),
            build,
        ),
{
}

/// Derive the transport encryption key from a shared secret and nonce.
pub fn derive_tek(shared: &[u8], nonce: &[u8]) -> (r: Vec<u8>)
    ensures
        r@ == spec_tek(shared@, nonce@),
        r@.len() == 16,
{
    let mut label: Vec<u8> = Vec::new();
    label.push(1);
    push_bytes(&mut label, nonce);
    proof {
        assert(label@ =~= seq![1u8] + nonce@);
    }
    let full = hmac_sha256(shared, label.as_slice());
    copy_range(full.as_slice(), 0, 16)
}

/// Derive the transport integrity key from a shared secret and nonce.
pub fn derive_tik(shared: &[u8], nonce: &[u8]) -> (r: Vec<u8>)
    ensures
        r@ == spec_tik(shared@, nonce@),
        r@.len() == 32,
{
    let mut label: Vec<u8> = Vec::new();
    label.push(2);
    push_bytes(&mut label, nonce);
    proof {
        assert(label@ =~= seq![2u8] + nonce@);
    }
    hmac_sha256(shared, label.as_slice())
}

/// The build metadata bytes entering the measurement tag.
pub fn build_bytes(b: &Build) -> (r: Vec<u8>)
    ensures
        r@ == spec_build_bytes(*b),
{
    let mut out: Vec<u8> = Vec::new();
    out.push(b.version.major);
    out.push(b.version.minor);
    push_le32(&mut out, b.build);
    proof {
        assert(out@ =~= spec_build_bytes(*b));
    }
    out
}

/// A fresh session: the policy and an ephemeral Diffie-Hellman keypair,
/// before any contact with the platform. Like every stage type it cannot be
/// built by struct literal outside the library; `new` and `with_parts` are
/// its constructors.
#[derive(Debug)]
#[non_exhaustive]
pub struct Session {
    /// The guest policy the session will demand.
    pub policy: Policy,
    /// The session nonce entering key derivation and the measurement.
    pub nonce: Vec<u8>,
    /// The ephemeral Diffie-Hellman scalar.
    pub secret_key: Vec<u8>,
    /// The ephemeral Diffie-Hellman public key, SEC1-encoded.
    pub public_key: Vec<u8>,
}

/// A session after key agreement: transport keys derived, guest bytes
/// accumulating towards the expected measurement. Only `Session::start`
/// produces one; it cannot be built by struct literal outside the library.
#[derive(Debug)]
#[non_exhaustive]
pub struct StartedSession {
    /// The guest policy.
    pub policy: Policy,
    /// The session nonce.
    pub nonce: Vec<u8>,
    /// The transport encryption key.
    pub tek: Vec<u8>,
    /// The transport integrity key.
    pub tik: Vec<u8>,
    /// The guest bytes fed so far, in feeding order.
    pub data: Vec<u8>,
}

/// A session after measuring: the locally expected digest is fixed. Only
/// `StartedSession::measure` produces one; it cannot be built by struct
/// literal outside the library.
#[derive(Debug)]
#[non_exhaustive]
pub struct MeasuredSession {
    /// The guest policy.
    pub policy: Policy,
    /// The transport encryption key.
    pub tek: Vec<u8>,
    /// The transport integrity key.
    pub tik: Vec<u8>,
    /// The locally computed expected measurement digest.
    pub digest: Vec<u8>,
}

/// A session whose measurement the firmware has confirmed: the only stage
/// that can produce secrets for injection. Only `MeasuredSession::verify`
/// produces one — it cannot be built by struct literal outside the library,
/// so a secret can never be produced without passing measurement
/// verification.
#[derive(Debug)]
#[non_exhaustive]
pub struct VerifiedSession {
    /// The transport encryption key.
    pub tek: Vec<u8>,
    /// The transport integrity key.
    pub tik: Vec<u8>,
}

impl Session {
    /// Open a session: draw a fresh nonce and an ephemeral keypair. The
    /// public key carried into the launch-start blob is the public point of
    /// the very scalar the session later feeds into key agreement.
    pub fn new(policy: Policy) -> (r: Session)
        ensures
            r.policy == policy,
            r.nonce@.len() == 16,
            r.secret_key@.len() == 32,
            r.public_key@.len() == 65,
            r.public_key@ == p256_public_of(r.secret_key@),
    {
        let nonce = random_bytes_16();
        let (secret_key, public_key) = p256_generate();
        Session { policy, nonce, secret_key, public_key }
    }

    /// Open a session from explicit parts, for reproducible launches.
    pub fn with_parts(policy: Policy, nonce: Vec<u8>, secret_key: Vec<u8>, public_key: Vec<u8>) -> (r:
        Session)
        ensures
            r.policy == policy,
            r.nonce == nonce,
            r.secret_key == secret_key,
            r.public_key == public_key,
    {
        Session { policy, nonce, secret_key, public_key }
    }

    /// Agree on a shared secret with the chain's platform Diffie-Hellman key
    /// and derive the transport keys. Fails when the chain's key algorithm
    /// matches no known derivation profile, or when its key is unusable for
    /// agreement. Returns the started session and the launch-start blob to
    /// hand to the platform.
    pub fn start(self, chain: &Chain) -> (r: Result<(StartedSession, Start), SessionError>)
        ensures
            r is Ok <==> chain.pdh.key.algo is EcdhSha256 && p256_ecdh_ok(
                self.secret_key@,
                chain.pdh.key.bytes@,
            ),
            !(chain.pdh.key.algo is EcdhSha256) <==> r == Err::<
                (StartedSession, Start),
                SessionError,
            >(SessionError::UnsupportedGeneration),
            r == Err::<(StartedSession, Start), SessionError>(SessionError::InvalidPdhKey) <==> (
            chain.pdh.key.algo is EcdhSha256 && !p256_ecdh_ok(
                self.secret_key@,
                chain.pdh.key.bytes@,
            )),
            r matches Ok((s, blob)) ==> {
                let shared = p256_shared_secret_of(self.secret_key@, chain.pdh.key.bytes@);
                &&& s.policy == self.policy
                &&& s.nonce@ == self.nonce@
                &&& s.tek@ == spec_tek(shared, self.nonce@)
                &&& s.tik@ == spec_tik(shared, self.nonce@)
                &&& s.data@ == Seq::<u8>::empty()
                &&& s.tek@.len() == 16
                &&& s.tik@.len() == 32
                &&& blob.policy == self.policy
                &&& blob.nonce@ == self.nonce@
                &&& blob.public_key@ == self.public_key@
            },
    {
        let ecdh_key = match chain.pdh.key.algo {
            Algorithm::EcdhSha256 => true,
            _ => false,
        };
        if !ecdh_key {
            return Err(SessionError::UnsupportedGeneration);
        }
        let shared = match p256_ecdh(self.secret_key.as_slice(), chain.pdh.key.bytes.as_slice()) {
            Some(s) => s,
            None => { return Err(SessionError::InvalidPdhKey); },
        };
        let tek = derive_tek(shared.as_slice(), self.nonce.as_slice());
        let tik = derive_tik(shared.as_slice(), self.nonce.as_slice());
        let blob = Start {
            policy: self.policy,
            nonce: self.nonce.clone(),
            public_key: self.public_key.clone(),
        };
        let started = StartedSession {
            policy: self.policy,
            nonce: self.nonce,
            tek,
            tik,
            data: Vec::new(),
        };
        Ok((started, blob))
    }
}

impl StartedSession {
    /// Feed guest memory bytes into the running measurement. Order matters:
    /// the digest depends on the order of these calls.
    pub fn update_data(&mut self, data: &[u8])
        ensures
            final(self).data@ == old(self).data@ + data@,
            final(self).policy == old(self).policy,
            final(self).nonce@ == old(self).nonce@,
            final(self).tek@ == old(self).tek@,
            final(self).tik@ == old(self).tik@,
    {
        push_bytes(&mut self.data, data);
    }

    /// Fix the locally expected measurement digest over the accumulated
    /// bytes, the policy word and the nonce.
    pub fn measure(self) -> (r: MeasuredSession)
        ensures
            r.digest@ == spec_expected_digest(self.policy, self.data@, self.nonce@),
            r.digest@.len() == 32,
            r.policy == self.policy,
            r.tek@ == self.tek@,
            r.tik@ == self.tik@,
    {
        let StartedSession { policy, nonce, tek, tik, data } = self;
        let mut buf = data;
        push_le32(&mut buf, crate::policy::Policy::bits(&policy));
        push_bytes(&mut buf, nonce.as_slice());
        proof {
            assert(buf@ =~= self.data@ + spec_policy_le_bytes(self.policy) + self.nonce@);
        }
        let digest = sha256(buf.as_slice());
        MeasuredSession { policy, tek, tik, digest }
    }
}

impl MeasuredSession {
    /// Compare the firmware's measurement against the locally expected one:
    /// the digests must be byte-identical and the firmware's tag over digest
    /// and build must validate under the transport integrity key. Any
    /// mismatch is fatal.
    pub fn verify(self, build: Build, msr: &Measurement) -> (r: Result<
        VerifiedSession,
        SessionError,
    >)
        ensures
            r is Ok <==> spec_verify_accepts(self.digest@, self.tik@, msr.digest@, msr.mac@, build),
            r matches Ok(v) ==> v.tek@ == self.tek@ && v.tik@ == self.tik@,
            r is Err ==> r == Err::<VerifiedSession, SessionError>(SessionError::BadMeasurement),
    {
        let digests_equal = bytes_eq(msr.digest.as_slice(), self.digest.as_slice());
        let mut tag_input = msr.digest.clone();
        let bb = build_bytes(&build);
        push_bytes(&mut tag_input, bb.as_slice());
        let expected_mac = hmac_sha256(self.tik.as_slice(), tag_input.as_slice());
        let mac_ok = bytes_eq(msr.mac.as_slice(), expected_mac.as_slice());
        if digests_equal && mac_ok {
            Ok(VerifiedSession { tek: self.tek, tik: self.tik })
        } else {
            Err(SessionError::BadMeasurement)
        }
    }
}

impl VerifiedSession {
    /// Encrypt a secret for injection: a fresh cipher nonce, the plaintext
    /// under the transport encryption key, and an integrity tag over flags,
    /// nonce and ciphertext under the transport integrity key.
    pub fn secret(&self, flags: HeaderFlags, plaintext: &[u8]) -> (r: Secret)
        requires
            self.tek@.len() == 16,
        ensures
            r.flags == flags,
            r.iv@.len() == 16,
            r.ciphertext@ == aes128_ctr_of(self.tek@, r.iv@, plaintext@),
            r.ciphertext@.len() == plaintext@.len(),
            r.mac@ == hmac_sha256_of(
                self.tik@,
                spec_le32_bytes(flags.bits) + r.iv@ + r.ciphertext@,
            ),
    {
        let iv = random_bytes_16();
        let ciphertext = aes128_ctr_apply(self.tek.as_slice(), iv.as_slice(), plaintext);
        let mut tag_input: Vec<u8> = Vec::new();
        push_le32(&mut tag_input, flags.bits);
        push_bytes(&mut tag_input, iv.as_slice());
        push_bytes(&mut tag_input, ciphertext.as_slice());
        proof {
            assert(tag_input@ =~= spec_le32_bytes(flags.bits) + iv@ + ciphertext@);
        }
        let mac = hmac_sha256(self.tik.as_slice(), tag_input.as_slice());
        Secret { flags, iv, ciphertext, mac }
    }
}

} // verus!
