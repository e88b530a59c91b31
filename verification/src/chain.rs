//! The certificate chain of trust and its verification.
//!
//! A chain holds the certificates of the SEV hierarchy — the owner authority
//! is optional, as self-owned platforms carry none. Verifying a chain means
//! verifying every edge from the leaf (the platform Diffie-Hellman key) up
//! to the root (the AMD root key), whose public key must in addition equal a
//! compiled-in, generation-specific trusted key: the sole trust anchor. A
//! chain with any broken link fails as a whole — no partial trust.

use vstd::prelude::*;

use crate::certs::{
    cert_wf, spec_decode_cert_prefix, spec_encode_cert, spec_pair_verifies, verify, Certificate,
    CertificateView, DecodeError, VerifyError, lemma_cert_canonical, lemma_cert_round_trip,
};
use crate::codec::{bytes_eq, push_bytes, push_le32, read_le32, lemma_le32_bytes_round_trip,
    lemma_le32_round_trip, spec_le32_bytes, spec_u32_of_le};

verus! {

/// A platform generation; each has its own trusted root key.
#[derive(Clone, Copy, Debug, PartialEq, Eq, Structural)]
pub enum Generation {
    /// First SEV generation.
    Naples,
    /// Second generation.
    Rome,
    /// Third generation.
    Milan,
    /// Fourth generation.
    Genoa,
}

/// The wire tag of a generation.
pub open spec fn spec_generation_tag(g: Generation) -> u32 {
    match g {
        Generation::Naples => 0x0,
        Generation::Rome => 0x1,
        Generation::Milan => 0x2,
        Generation::Genoa => 0x3,
    }
}

/// The generation a wire tag stands for, if recognized.
pub open spec fn spec_generation_of_tag(t: u32) -> Option<Generation> {
    if t == 0x0 {
        Some(Generation::Naples)
    } else if t == 0x1 {
        Some(Generation::Rome)
    } else if t == 0x2 {
        Some(Generation::Milan)
    } else if t == 0x3 {
        Some(Generation::Genoa)
    } else {
        None
    }
}

/// The compiled-in trusted root public key of a generation (SEC1 bytes of a
/// P-256 point). The table is the sole trust anchor of chain verification.
///
/// The entries here are development stand-ins whose private scalars are
/// small and publicly known: they anchor nothing. A deployment must swap in
/// the platform vendor's published root keys before trusting any verdict.
pub open spec fn spec_ark_key(g: Generation) -> Seq<u8> {
    match g {
        Generation::Naples => seq![
            0x04, 0x6b, 0x17, 0xd1, 0xf2, 0xe1, 0x2c, 0x42, 0x47, 0xf8,
            0xbc, 0xe6, 0xe5, 0x63, 0xa4, 0x40, 0xf2, 0x77, 0x03, 0x7d,
            0x81, 0x2d, 0xeb, 0x33, 0xa0, 0xf4, 0xa1, 0x39, 0x45, 0xd8,
            0x98, 0xc2, 0x96, 0x4f, 0xe3, 0x42, 0xe2, 0xfe, 0x1a, 0x7f,
            0x9b, 0x8e, 0xe7, 0xeb, 0x4a, 0x7c, 0x0f, 0x9e, 0x16, 0x2b,
            0xce, 0x33, 0x57, 0x6b, 0x31, 0x5e, 0xce, 0xcb, 0xb6, 0x40,
            0x68, 0x37, 0xbf, 0x51, 0xf5,
        ],
        Generation::Rome => seq![
            0x04, 0x7c, 0xf2, 0x7b, 0x18, 0x8d, 0x03, 0x4f, 0x7e, 0x8a,
            0x52, 0x38, 0x03, 0x04, 0xb5, 0x1a, 0xc3, 0xc0, 0x89, 0x69,
            0xe2, 0x77, 0xf2, 0x1b, 0x35, 0xa6, 0x0b, 0x48, 0xfc, 0x47,
            0x66, 0x99, 0x78, 0x07, 0x77, 0x55, 0x10, 0xdb, 0x8e, 0xd0,
            0x40, 0x29, 0x3d, 0x9a, 0xc6, 0x9f, 0x74, 0x30, 0xdb, 0xba,
            0x7d, 0xad, 0xe6, 0x3c, 0xe9, 0x82, 0x29, 0x9e, 0x04, 0xb7,
            0x9d, 0x22, 0x78, 0x73, 0xd1,
        ],
        Generation::Milan => seq![
            0x04, 0x5e, 0xcb, 0xe4, 0xd1, 0xa6, 0x33, 0x0a, 0x44, 0xc8,
            0xf7, 0xef, 0x95, 0x1d, 0x4b, 0xf1, 0x65, 0xe6, 0xc6, 0xb7,
            0x21, 0xef, 0xad, 0xa9, 0x85, 0xfb, 0x41, 0x66, 0x1b, 0xc6,
            0xe7, 0xfd, 0x6c, 0x87, 0x34, 0x64, 0x0c, 0x49, 0x98, 0xff,
            0x7e, 0x37, 0x4b, 0x06, 0xce, 0x1a, 0x64, 0xa2, 0xec, 0xd8,
            0x2a, 0xb0, 0x36, 0x38, 0x4f, 0xb8, 0x3d, 0x9a, 0x79, 0xb1,
            0x27, 0xa2, 0x7d, 0x50, 0x32,
        ],
        Generation::Genoa => seq![
            0x04, 0xe2, 0x53, 0x4a, 0x35, 0x32, 0xd0, 0x8f, 0xbb, 0xa0,
            0x2d, 0xde, 0x65, 0x9e, 0xe6, 0x2b, 0xd0, 0x03, 0x1f, 0xe2,
            0xdb, 0x78, 0x55, 0x96, 0xef, 0x50, 0x93, 0x02, 0x44, 0x6b,
            0x03, 0x08, 0x52, 0xe0, 0xf1, 0x57, 0x5a, 0x4c, 0x63, 0x3c,
            0xc7, 0x19, 0xdf, 0xee, 0x5f, 0xda, 0x86, 0x2d, 0x76, 0x4e,
            0xfc, 0x96, 0xc3, 0xf3, 0x0e, 0xe0, 0x05, 0x5c, 0x42, 0xc2,
            0x3f, 0x18, 0x4e, 0xd8, 0xc6,
        ],
    }
}

/// The wire tag of a generation.
pub fn generation_tag(g: Generation) -> (r: u32)
    ensures
        r == spec_generation_tag(g),
{
    match g {
        Generation::Naples => 0x0,
        Generation::Rome => 0x1,
        Generation::Milan => 0x2,
        Generation::Genoa => 0x3,
    }
}

/// The generation a wire tag stands for, if recognized.
pub fn generation_of_tag(t: u32) -> (r: Option<Generation>)
    ensures
        r == spec_generation_of_tag(t),
{
    match t {
        0x0 => Some(Generation::Naples),
        0x1 => Some(Generation::Rome),
        0x2 => Some(Generation::Milan),
        0x3 => Some(Generation::Genoa),
        _ => None,
    }
}

/// The compiled-in trusted root public key of a generation.
///
/// The table holds development stand-ins whose private scalars are small
/// and publicly known: they anchor nothing. A deployment must swap in the
/// platform vendor's published root keys before trusting any verdict.
pub fn ark_public_key(g: Generation) -> (r: Vec<u8>)
    ensures
        r@ == spec_ark_key(g),
{
    let r: Vec<u8> = match g {
        Generation::Naples => vec![
            0x04, 0x6b, 0x17, 0xd1, 0xf2, 0xe1, 0x2c, 0x42, 0x47, 0xf8,
            0xbc, 0xe6, 0xe5, 0x63, 0xa4, 0x40, 0xf2, 0x77, 0x03, 0x7d,
            0x81, 0x2d, 0xeb, 0x33, 0xa0, 0xf4, 0xa1, 0x39, 0x45, 0xd8,
            0x98, 0xc2, 0x96, 0x4f, 0xe3, 0x42, 0xe2, 0xfe, 0x1a, 0x7f,
            0x9b, 0x8e, 0xe7, 0xeb, 0x4a, 0x7c, 0x0f, 0x9e, 0x16, 0x2b,
            0xce, 0x33, 0x57, 0x6b, 0x31, 0x5e, 0xce, 0xcb, 0xb6, 0x40,
            0x68, 0x37, 0xbf, 0x51, 0xf5,
        ],
        Generation::Rome => vec![
            0x04, 0x7c, 0xf2, 0x7b, 0x18, 0x8d, 0x03, 0x4f, 0x7e, 0x8a,
            0x52, 0x38, 0x03, 0x04, 0xb5, 0x1a, 0xc3, 0xc0, 0x89, 0x69,
            0xe2, 0x77, 0xf2, 0x1b, 0x35, 0xa6, 0x0b, 0x48, 0xfc, 0x47,
            0x66, 0x99, 0x78, 0x07, 0x77, 0x55, 0x10, 0xdb, 0x8e, 0xd0,
            0x40, 0x29, 0x3d, 0x9a, 0xc6, 0x9f, 0x74, 0x30, 0xdb, 0xba,
            0x7d, 0xad, 0xe6, 0x3c, 0xe9, 0x82, 0x29, 0x9e, 0x04, 0xb7,
            0x9d, 0x22, 0x78, 0x73, 0xd1,
        ],
        Generation::Milan => vec![
            0x04, 0x5e, 0xcb, 0xe4, 0xd1, 0xa6, 0x33, 0x0a, 0x44, 0xc8,
            0xf7, 0xef, 0x95, 0x1d, 0x4b, 0xf1, 0x65, 0xe6, 0xc6, 0xb7,
            0x21, 0xef, 0xad, 0xa9, 0x85, 0xfb, 0x41, 0x66, 0x1b, 0xc6,
            0xe7, 0xfd, 0x6c, 0x87, 0x34, 0x64, 0x0c, 0x49, 0x98, 0xff,
            0x7e, 0x37, 0x4b, 0x06, 0xce, 0x1a, 0x64, 0xa2, 0xec, 0xd8,
            0x2a, 0xb0, 0x36, 0x38, 0x4f, 0xb8, 0x3d, 0x9a, 0x79, 0xb1,
            0x27, 0xa2, 0x7d, 0x50, 0x32,
        ],
        Generation::Genoa => vec![
            0x04, 0xe2, 0x53, 0x4a, 0x35, 0x32, 0xd0, 0x8f, 0xbb, 0xa0,
            0x2d, 0xde, 0x65, 0x9e, 0xe6, 0x2b, 0xd0, 0x03, 0x1f, 0xe2,
            0xdb, 0x78, 0x55, 0x96, 0xef, 0x50, 0x93, 0x02, 0x44, 0x6b,
            0x03, 0x08, 0x52, 0xe0, 0xf1, 0x57, 0x5a, 0x4c, 0x63, 0x3c,
            0xc7, 0x19, 0xdf, 0xee, 0x5f, 0xda, 0x86, 0x2d, 0x76, 0x4e,
            0xfc, 0x96, 0xc3, 0xf3, 0x0e, 0xe0, 0x05, 0x5c, 0x42, 0xc2,
            0x3f, 0x18, 0x4e, 0xd8, 0xc6,
        ],
    };
    proof {
        assert(r@ =~= spec_ark_key(g));
    }
    r
}

/// One edge of the chain of trust, named by its subject certificate.
#[derive(Clone, Copy, Debug, PartialEq, Eq, Structural)]
pub enum ChainEdge {
    /// The root's self-signature and anchor check.
    Ark,
    /// The AMD signing key, signed by the root.
    Ask,
    /// The chip endorsement key, signed by the AMD signing key.
    Cek,
    /// The owner certificate authority's self-signature.
    Oca,
    /// The platform endorsement key, signed by the owner authority.
    Pek,
    /// The platform Diffie-Hellman key, signed by the endorsement key.
    Pdh,
}

/// Why and where chain verification failed: the first broken edge in
/// leaf-to-root order, and its cause.
#[derive(Clone, Copy, Debug, PartialEq, Eq, Structural)]
pub struct ChainError {
    /// The broken edge.
    pub edge: ChainEdge,
    /// What was wrong at that edge.
    pub cause: VerifyError,
}

/// The mathematical image of a chain.
pub struct ChainView {
    /// The platform generation, selecting the trust anchor.
    pub generation: Generation,
    /// The AMD root key certificate.
    pub ark: CertificateView,
    /// The AMD signing key certificate.
    pub ask: CertificateView,
    /// The chip endorsement key certificate.
    pub cek: CertificateView,
    /// The owner certificate authority certificate, on generations that
    /// carry one.
    pub oca: Option<CertificateView>,
    /// The platform endorsement key certificate.
    pub pek: CertificateView,
    /// The platform Diffie-Hellman certificate.
    pub pdh: CertificateView,
}

/// The certificate chain of one platform.
#[derive(Clone, Debug, PartialEq)]
pub struct Chain {
    /// The platform generation, selecting the trust anchor.
    pub generation: Generation,
    /// The AMD root key certificate.
    pub ark: Certificate,
    /// The AMD signing key certificate.
    pub ask: Certificate,
    /// The chip endorsement key certificate.
    pub cek: Certificate,
    /// The owner certificate authority certificate; absent on generations
    /// and platforms without an owner authority, whose endorsement key the
    /// chip endorsement key signs instead.
    pub oca: Option<Certificate>,
    /// The platform endorsement key certificate.
    pub pek: Certificate,
    /// The platform Diffie-Hellman certificate.
    pub pdh: Certificate,
}

impl View for Chain {
    type V = ChainView;

    open spec fn view(&self) -> ChainView {
        ChainView {
            generation: self.generation,
            ark: self.ark@,
            ask: self.ask@,
            cek: self.cek@,
            oca: match self.oca {
                Some(ref o) => Some(o@),
                None => None,
            },
            pek: self.pek@,
            pdh: self.pdh@,
        }
    }
}

/// A well-formed chain: every certificate present is well-formed.
pub open spec fn chain_wf(c: ChainView) -> bool {
    &&& cert_wf(c.ark)
    &&& cert_wf(c.ask)
    &&& cert_wf(c.cek)
    &&& (c.oca matches Some(o) ==> cert_wf(o))
    &&& cert_wf(c.pek)
    &&& cert_wf(c.pdh)
}

/// Whether one edge of the chain holds: the subject is validly certified by
/// its issuer, and the root's key is additionally the trusted anchor.
pub open spec fn spec_edge_ok(c: ChainView, e: ChainEdge) -> bool {
    match e {
        ChainEdge::Pdh => spec_pair_verifies(c.pek, c.pdh),
        ChainEdge::Pek => match c.oca {
            Some(o) => spec_pair_verifies(o, c.pek),
            None => spec_pair_verifies(c.cek, c.pek),
        },
        ChainEdge::Oca => match c.oca {
            Some(o) => spec_pair_verifies(o, o),
            None => true,
        },
        ChainEdge::Cek => spec_pair_verifies(c.ask, c.cek),
        ChainEdge::Ask => spec_pair_verifies(c.ark, c.ask),
        ChainEdge::Ark => spec_pair_verifies(c.ark, c.ark) && c.ark.key.bytes == spec_ark_key(
            c.generation,
        ),
    }
}

/// Whether the whole chain verifies: every edge holds.
pub open spec fn spec_chain_ok(c: ChainView) -> bool {
    forall|e: ChainEdge| spec_edge_ok(c, e)
}

/// The broken edges, in the leaf-to-root order in which verification
/// examines them.
pub open spec fn spec_broken_edges(c: ChainView) -> Seq<ChainEdge> {
    (if !spec_edge_ok(c, ChainEdge::Pdh) { seq![ChainEdge::Pdh] } else { Seq::empty() })
        + (if !spec_edge_ok(c, ChainEdge::Pek) { seq![ChainEdge::Pek] } else { Seq::empty() })
        + (if !spec_edge_ok(c, ChainEdge::Oca) { seq![ChainEdge::Oca] } else { Seq::empty() })
        + (if !spec_edge_ok(c, ChainEdge::Cek) { seq![ChainEdge::Cek] } else { Seq::empty() })
        + (if !spec_edge_ok(c, ChainEdge::Ask) { seq![ChainEdge::Ask] } else { Seq::empty() })
        + (if !spec_edge_ok(c, ChainEdge::Ark) { seq![ChainEdge::Ark] } else { Seq::empty() })
}

/// The cause reported for a broken edge: a usage mismatch is told apart from
/// a failing signature, and a root whose key is not the trusted anchor is an
/// untrusted root.
pub open spec fn spec_edge_cause(c: ChainView, e: ChainEdge) -> VerifyError {
    match e {
        ChainEdge::Pdh => spec_pair_cause(c.pek, c.pdh),
        ChainEdge::Pek => match c.oca {
            Some(o) => spec_pair_cause(o, c.pek),
            None => spec_pair_cause(c.cek, c.pek),
        },
        ChainEdge::Oca => match c.oca {
            Some(o) => spec_pair_cause(o, o),
            None => VerifyError::BadSignature,
        },
        ChainEdge::Cek => spec_pair_cause(c.ask, c.cek),
        ChainEdge::Ask => spec_pair_cause(c.ark, c.ask),
        ChainEdge::Ark => if c.ark.key.bytes != spec_ark_key(c.generation) {
            VerifyError::UntrustedRoot
        } else {
            spec_pair_cause(c.ark, c.ark)
        },
    }
}

/// The cause a failed pair check reports: a wrong issuer first, then a
/// subject none of whose slots could be checked at all, then a rejected
/// signature.
pub open spec fn spec_pair_cause(signer: CertificateView, subject: CertificateView) -> VerifyError {
    if !crate::certs::spec_usage_allowed(signer.usage, subject.usage) {
        VerifyError::UsageMismatch
    } else if !crate::certs::spec_has_checkable_sig(signer, subject) {
        VerifyError::UnsupportedAlgorithm
    } else {
        VerifyError::BadSignature
    }
}

/// The first broken edge in leaf-to-root order; meaningful only when some
/// edge is broken.
pub open spec fn spec_first_broken(c: ChainView) -> ChainEdge {
    if !spec_edge_ok(c, ChainEdge::Pdh) {
        ChainEdge::Pdh
    } else if !spec_edge_ok(c, ChainEdge::Pek) {
        ChainEdge::Pek
    } else if !spec_edge_ok(c, ChainEdge::Oca) {
        ChainEdge::Oca
    } else if !spec_edge_ok(c, ChainEdge::Cek) {
        ChainEdge::Cek
    } else if !spec_edge_ok(c, ChainEdge::Ask) {
        ChainEdge::Ask
    } else {
        ChainEdge::Ark
    }
}

impl Chain {
    /// Check one edge, reporting its cause on failure.
    fn check_edge(&self, e: ChainEdge) -> (r: Result<(), VerifyError>)
        ensures
            r is Ok <==> spec_edge_ok(self@, e),
            r matches Err(cause) ==> cause == spec_edge_cause(self@, e),
    {
        match e {
            ChainEdge::Pdh => verify(&self.pek, &self.pdh),
            ChainEdge::Pek => match &self.oca {
                Some(o) => verify(o, &self.pek),
                None => verify(&self.cek, &self.pek),
            },
            ChainEdge::Oca => match &self.oca {
                Some(o) => verify(o, o),
                None => Ok(()),
            },
            ChainEdge::Cek => verify(&self.ask, &self.cek),
            ChainEdge::Ask => verify(&self.ark, &self.ask),
            ChainEdge::Ark => {
                let anchor = ark_public_key(self.generation);
                if !bytes_eq(self.ark.key.bytes.as_slice(), anchor.as_slice()) {
                    Err(VerifyError::UntrustedRoot)
                } else {
                    verify(&self.ark, &self.ark)
                }
            },
        }
    }

    /// Verify every edge of the chain, leaf to root, short-circuiting on the
    /// first broken one. Success means every edge holds; failure names the
    /// first broken edge and its cause.
    pub fn verify(&self) -> (r: Result<(), ChainError>)
        ensures
            r is Ok <==> spec_chain_ok(self@),
            r matches Err(ce) ==> !spec_edge_ok(self@, ce.edge) && ce.edge == spec_first_broken(
                self@,
            ) && ce.cause == spec_edge_cause(self@, ce.edge),
    {
        if let Err(cause) = self.check_edge(ChainEdge::Pdh) {
            return Err(ChainError { edge: ChainEdge::Pdh, cause });
        }
        if let Err(cause) = self.check_edge(ChainEdge::Pek) {
            return Err(ChainError { edge: ChainEdge::Pek, cause });
        }
        if let Err(cause) = self.check_edge(ChainEdge::Oca) {
            return Err(ChainError { edge: ChainEdge::Oca, cause });
        }
        if let Err(cause) = self.check_edge(ChainEdge::Cek) {
            return Err(ChainError { edge: ChainEdge::Cek, cause });
        }
        if let Err(cause) = self.check_edge(ChainEdge::Ask) {
            return Err(ChainError { edge: ChainEdge::Ask, cause });
        }
        if let Err(cause) = self.check_edge(ChainEdge::Ark) {
            return Err(ChainError { edge: ChainEdge::Ark, cause });
        }
        proof {
            assert forall|e: ChainEdge| spec_edge_ok(self@, e) by {
                match e {
                    ChainEdge::Pdh => {},
                    ChainEdge::Pek => {},
                    ChainEdge::Oca => {},
                    ChainEdge::Cek => {},
                    ChainEdge::Ask => {},
                    ChainEdge::Ark => {},
                }
            }
        }
        Ok(())
    }

    /// List every broken edge, in leaf-to-root order: exactly the edges at
    /// which verification fails, with no false negatives.
    #[verifier::rlimit(100)]
    pub fn broken_edges(&self) -> (r: Vec<ChainEdge>)
        ensures
            r@ == spec_broken_edges(self@),
            forall|e: ChainEdge| r@.contains(e) <==> !spec_edge_ok(self@, e),
    {
        let mut out: Vec<ChainEdge> = Vec::new();
        if self.check_edge(ChainEdge::Pdh).is_err() {
            out.push(ChainEdge::Pdh);
        }
        if self.check_edge(ChainEdge::Pek).is_err() {
            out.push(ChainEdge::Pek);
        }
        if self.check_edge(ChainEdge::Oca).is_err() {
            out.push(ChainEdge::Oca);
        }
        if self.check_edge(ChainEdge::Cek).is_err() {
            out.push(ChainEdge::Cek);
        }
        if self.check_edge(ChainEdge::Ask).is_err() {
            out.push(ChainEdge::Ask);
        }
        if self.check_edge(ChainEdge::Ark).is_err() {
            out.push(ChainEdge::Ark);
        }
        proof {
            assert(out@ =~= spec_broken_edges(self@));
            assert forall|e: ChainEdge| out@.contains(e) <==> !spec_edge_ok(self@, e) by {
                lemma_broken_edges_membership(self@, e);
            }
        }
        out
    }
}

/// Membership distributes over concatenation.
proof fn lemma_concat_contains(a: Seq<ChainEdge>, b: Seq<ChainEdge>, x: ChainEdge)
    ensures
        (a + b).contains(x) <==> a.contains(x) || b.contains(x),
{
    if a.contains(x) {
        let i = choose|i: int| 0 <= i < a.len() && a[i] == x;
        assert((a + b)[i] == x);
    }
    if b.contains(x) {
        let i = choose|i: int| 0 <= i < b.len() && b[i] == x;
        assert((a + b)[a.len() + i] == x);
    }
    if (a + b).contains(x) {
        let i = choose|i: int| 0 <= i < (a + b).len() && (a + b)[i] == x;
        if i < a.len() {
            assert(a[i] == x);
        } else {
            assert(b[i - a.len()] == x);
        }
    }
}

/// The one-edge piece of the broken-edge list.
spec fn spec_edge_piece(c: ChainView, e: ChainEdge) -> Seq<ChainEdge> {
    if !spec_edge_ok(c, e) {
        seq![e]
    } else {
        Seq::empty()
    }
}

/// Membership in a one-edge piece.
proof fn lemma_piece_contains(c: ChainView, e: ChainEdge, x: ChainEdge)
    ensures
        spec_edge_piece(c, e).contains(x) <==> (x == e && !spec_edge_ok(c, e)),
{
    if !spec_edge_ok(c, e) {
        assert(spec_edge_piece(c, e)[0] == e);
        if spec_edge_piece(c, e).contains(x) {
            let i = choose|i: int| 0 <= i < seq![e].len() && seq![e][i] == x;
            assert(x == e);
        }
    } else {
        if spec_edge_piece(c, e).contains(x) {
            let i = choose|i: int|
                0 <= i < spec_edge_piece(c, e).len() && spec_edge_piece(c, e)[i] == x;
            assert(false);
        }
    }
}

/// Membership in the broken-edge list coincides with the edge being broken.
proof fn lemma_broken_edges_membership(c: ChainView, e: ChainEdge)
    ensures
        spec_broken_edges(c).contains(e) <==> !spec_edge_ok(c, e),
{
    let p1 = spec_edge_piece(c, ChainEdge::Pdh);
    let p2 = spec_edge_piece(c, ChainEdge::Pek);
    let p3 = spec_edge_piece(c, ChainEdge::Oca);
    let p4 = spec_edge_piece(c, ChainEdge::Cek);
    let p5 = spec_edge_piece(c, ChainEdge::Ask);
    let p6 = spec_edge_piece(c, ChainEdge::Ark);
    assert(spec_broken_edges(c) == p1 + p2 + p3 + p4 + p5 + p6);
    lemma_concat_contains(p1 + p2 + p3 + p4 + p5, p6, e);
    lemma_concat_contains(p1 + p2 + p3 + p4, p5, e);
    lemma_concat_contains(p1 + p2 + p3, p4, e);
    lemma_concat_contains(p1 + p2, p3, e);
    lemma_concat_contains(p1, p2, e);
    lemma_piece_contains(c, ChainEdge::Pdh, e);
    lemma_piece_contains(c, ChainEdge::Pek, e);
    lemma_piece_contains(c, ChainEdge::Oca, e);
    lemma_piece_contains(c, ChainEdge::Cek, e);
    lemma_piece_contains(c, ChainEdge::Ask, e);
    lemma_piece_contains(c, ChainEdge::Ark, e);
}

/// The chain verdict is decided by the set of broken edges alone, not by the
/// order in which edges are examined: verification succeeds exactly when no
/// edge at all is broken, and the broken-edge list holds exactly the edges
/// that fail.
pub proof fn lemma_chain_verdict_order_independent(c: ChainView)
    ensures
        spec_chain_ok(c) <==> spec_broken_edges(c).len() == 0,
        forall|e: ChainEdge| spec_broken_edges(c).contains(e) <==> !spec_edge_ok(c, e),
{
    assert forall|e: ChainEdge| spec_broken_edges(c).contains(e) <==> !spec_edge_ok(c, e) by {
        lemma_broken_edges_membership(c, e);
    }
    if spec_broken_edges(c).len() == 0 {
        assert forall|e: ChainEdge| spec_edge_ok(c, e) by {
            assert(!spec_broken_edges(c).contains(e));
        }
    } else {
        let e0 = spec_broken_edges(c)[0];
        assert(spec_broken_edges(c).contains(e0));
    }
}

/// The owner-authority presence word of a chain: one when the certificate
/// is carried, zero when not.
pub open spec fn spec_oca_presence(c: ChainView) -> u32 {
    if c.oca is Some {
        1u32
    } else {
        0u32
    }
}

/// The owner-authority certificate's bytes on the wire: its encoding when
/// carried, nothing when not.
pub open spec fn spec_encode_oca(c: ChainView) -> Seq<u8> {
    match c.oca {
        Some(o) => spec_encode_cert(o),
        None => Seq::empty(),
    }
}

/// A chain on the wire: the generation tag, the owner-authority presence
/// word, then the certificates, root first.
pub open spec fn spec_encode_chain(c: ChainView) -> Seq<u8> {
    spec_le32_bytes(spec_generation_tag(c.generation)) + (spec_le32_bytes(spec_oca_presence(c))
        + (spec_encode_cert(c.ark) + (spec_encode_cert(c.ask) + (spec_encode_cert(c.cek) + (
    spec_encode_oca(c) + (spec_encode_cert(c.pek) + spec_encode_cert(c.pdh)))))))
}

/// Rebracketing a left-nested concatenation of the chain's eight wire
/// segments into its right-nested form.
proof fn lemma_chain_segments(
    g: Seq<u8>,
    f: Seq<u8>,
    e1: Seq<u8>,
    e2: Seq<u8>,
    e3: Seq<u8>,
    e4: Seq<u8>,
    e5: Seq<u8>,
    e6: Seq<u8>,
)
    ensures
        (((((((Seq::<u8>::empty() + g) + f) + e1) + e2) + e3) + e4) + e5) + e6 == g + (f + (e1 + (
        e2 + (e3 + (e4 + (e5 + e6)))))),
{
    assert((((((((Seq::<u8>::empty() + g) + f) + e1) + e2) + e3) + e4) + e5) + e6 =~= g + (f + (e1
        + (e2 + (e3 + (e4 + (e5 + e6)))))));
}

impl Chain {
    /// Encode the chain in its wire format.
    #[verifier::rlimit(100)]
    pub fn encode(&self) -> (r: Vec<u8>)
        requires
            chain_wf(self@),
        ensures
            r@ == spec_encode_chain(self@),
    {
        let mut out: Vec<u8> = Vec::new();
        push_le32(&mut out, generation_tag(self.generation));
        let presence: u32 = match &self.oca {
            Some(_) => 1,
            None => 0,
        };
        push_le32(&mut out, presence);
        let e4: Vec<u8> = match &self.oca {
            Some(oca) => oca.encode(),
            None => Vec::new(),
        };
        proof {
            assert(presence == spec_oca_presence(self@));
            assert(e4@ == spec_encode_oca(self@));
        }
        let e1 = self.ark.encode();
        push_bytes(&mut out, e1.as_slice());
        let e2 = self.ask.encode();
        push_bytes(&mut out, e2.as_slice());
        let e3 = self.cek.encode();
        push_bytes(&mut out, e3.as_slice());
        push_bytes(&mut out, e4.as_slice());
        let e5 = self.pek.encode();
        push_bytes(&mut out, e5.as_slice());
        let e6 = self.pdh.encode();
        push_bytes(&mut out, e6.as_slice());
        proof {
            lemma_chain_segments(
                spec_le32_bytes(spec_generation_tag(self.generation)),
                spec_le32_bytes(presence),
                e1@,
                e2@,
                e3@,
                e4@,
                e5@,
                e6@,
            );
        }
        out
    }

    /// Decode a chain that fills the whole input; leftover bytes are an
    /// error, never ignored.
    pub fn decode(bytes: &[u8]) -> (r: Result<Chain, DecodeError>)
        ensures
            r matches Ok(c) ==> spec_decode_chain(bytes@) == Ok::<_, DecodeError>(c@) && chain_wf(
                c@,
            ),
            r matches Err(e) ==> spec_decode_chain(bytes@) == Err::<ChainView, _>(e),
    {
        let blen = bytes.len();
        if blen < 8 {
            return Err(DecodeError::Truncated);
        }
        let gt = read_le32(bytes, 0);
        let generation = match generation_of_tag(gt) {
            Some(g) => g,
            None => { return Err(DecodeError::InvalidGeneration(gt)); },
        };
        let presence = read_le32(bytes, 4);
        if presence > 1 {
            return Err(DecodeError::InvalidOwnerPresence(presence));
        }
        let (ark, o1) = match Certificate::decode_prefix(bytes, 8) {
            Ok(p) => p,
            Err(e) => { return Err(e); },
        };
        let (ask, o2) = match Certificate::decode_prefix(bytes, o1) {
            Ok(p) => p,
            Err(e) => { return Err(e); },
        };
        let (cek, o3) = match Certificate::decode_prefix(bytes, o2) {
            Ok(p) => p,
            Err(e) => { return Err(e); },
        };
        let (oca, o4) = if presence == 1 {
            match Certificate::decode_prefix(bytes, o3) {
                Ok((c, o)) => (Some(c), o),
                Err(e) => { return Err(e); },
            }
        } else {
            (None, o3)
        };
        let (pek, o5) = match Certificate::decode_prefix(bytes, o4) {
            Ok(p) => p,
            Err(e) => { return Err(e); },
        };
        let (pdh, o6) = match Certificate::decode_prefix(bytes, o5) {
            Ok(p) => p,
            Err(e) => { return Err(e); },
        };
        if o6 != blen {
            return Err(DecodeError::Trailing);
        }
        Ok(Chain { generation, ark, ask, cek, oca, pek, pdh })
    }
}

/// Decode the endorsement and Diffie-Hellman certificates at `off` and close
/// the chain, demanding that they end exactly at the input's end.
pub open spec fn spec_decode_chain_tail(
    s: Seq<u8>,
    generation: Generation,
    ark: CertificateView,
    ask: CertificateView,
    cek: CertificateView,
    oca: Option<CertificateView>,
    off: int,
) -> Result<ChainView, DecodeError> {
    match spec_decode_cert_prefix(s.skip(off)) {
        Err(e) => Err(e),
        Ok((pek, u5)) => match spec_decode_cert_prefix(s.skip(off + u5)) {
            Err(e) => Err(e),
            Ok((pdh, u6)) => if off + u5 + u6 == s.len() {
                Ok(ChainView { generation, ark, ask, cek, oca, pek, pdh })
            } else {
                Err(DecodeError::Trailing)
            },
        },
    }
}

/// Decode a chain from the whole of `s`.
pub open spec fn spec_decode_chain(s: Seq<u8>) -> Result<ChainView, DecodeError> {
    if s.len() < 8 {
        Err(DecodeError::Truncated)
    } else {
        let gt = spec_u32_of_le(s.subrange(0, 4));
        let presence = spec_u32_of_le(s.subrange(4, 8));
        match spec_generation_of_tag(gt) {
            None => Err(DecodeError::InvalidGeneration(gt)),
            Some(generation) => if presence > 1 {
                Err(DecodeError::InvalidOwnerPresence(presence))
            } else {
                match spec_decode_cert_prefix(s.skip(8)) {
                    Err(e) => Err(e),
                    Ok((ark, u1)) => match spec_decode_cert_prefix(s.skip(8 + u1)) {
                        Err(e) => Err(e),
                        Ok((ask, u2)) => match spec_decode_cert_prefix(s.skip(8 + u1 + u2)) {
                            Err(e) => Err(e),
                            Ok((cek, u3)) => if presence == 1 {
                                match spec_decode_cert_prefix(s.skip(8 + u1 + u2 + u3)) {
                                    Err(e) => Err(e),
                                    Ok((oca, u4)) => spec_decode_chain_tail(
                                        s,
                                        generation,
                                        ark,
                                        ask,
                                        cek,
                                        Some(oca),
                                        8 + u1 + u2 + u3 + u4,
                                    ),
                                }
                            } else {
                                spec_decode_chain_tail(
                                    s,
                                    generation,
                                    ark,
                                    ask,
                                    cek,
                                    None,
                                    8 + u1 + u2 + u3,
                                )
                            },
                        },
                    },
                }
            },
        }
    }
}

/// Skipping in two steps is skipping once.
proof fn lemma_skip_skip(s: Seq<u8>, a: int, b: int)
    requires
        0 <= a,
        0 <= b,
        a + b <= s.len(),
    ensures
        s.skip(a).skip(b) == s.skip(a + b),
{
    assert(s.skip(a).skip(b) =~= s.skip(a + b));
}

/// Dropping a concatenation's first part leaves its second.
proof fn lemma_concat_skip(a: Seq<u8>, b: Seq<u8>)
    ensures
        (a + b).skip(a.len() as int) == b,
        (a + b).subrange(0, a.len() as int) == a,
        (a + b).len() == a.len() + b.len(),
{
    assert((a + b).skip(a.len() as int) =~= b);
    assert((a + b).subrange(0, a.len() as int) =~= a);
}

/// Decoding the encoding of a well-formed chain yields the chain back.
#[verifier::rlimit(100)]
#[verifier::spinoff_prover]
pub proof fn lemma_chain_round_trip(c: ChainView)
    requires
        chain_wf(c),
    ensures
        spec_decode_chain(spec_encode_chain(c)) == Ok::<_, DecodeError>(c),
{
    let s = spec_encode_chain(c);
    let g = spec_le32_bytes(spec_generation_tag(c.generation));
    let f = spec_le32_bytes(spec_oca_presence(c));
    let e1 = spec_encode_cert(c.ark);
    let e2 = spec_encode_cert(c.ask);
    let e3 = spec_encode_cert(c.cek);
    let e4 = spec_encode_oca(c);
    let e5 = spec_encode_cert(c.pek);
    let e6 = spec_encode_cert(c.pdh);
    let r5 = e5 + e6;
    let r4 = e4 + r5;
    let r3 = e3 + r4;
    let r2 = e2 + r3;
    let r1 = e1 + r2;
    let r0 = f + r1;
    let l1 = e1.len() as int;
    let l2 = e2.len() as int;
    let l3 = e3.len() as int;
    let l4 = e4.len() as int;
    let l5 = e5.len() as int;
    let l6 = e6.len() as int;
    assert(s == g + r0);
    lemma_concat_skip(g, r0);
    lemma_le32_round_trip(spec_generation_tag(c.generation));
    lemma_le32_round_trip(spec_oca_presence(c));
    assert(s.subrange(0, 4) == g);
    assert(s.subrange(4, 8) =~= f);
    lemma_skip_skip(s, 4, 4);
    lemma_concat_skip(f, r1);
    assert(s.skip(8) == r1);
    lemma_cert_round_trip(c.ark, r2);
    lemma_skip_skip(s, 8, l1);
    lemma_concat_skip(e1, r2);
    assert(s.skip(8 + l1) == r2);
    lemma_cert_round_trip(c.ask, r3);
    lemma_skip_skip(s, 8 + l1, l2);
    lemma_concat_skip(e2, r3);
    assert(s.skip(8 + l1 + l2) == r3);
    lemma_cert_round_trip(c.cek, r4);
    lemma_skip_skip(s, 8 + l1 + l2, l3);
    lemma_concat_skip(e3, r4);
    assert(s.skip(8 + l1 + l2 + l3) == r4);
    match c.oca {
        Some(o) => {
            lemma_cert_round_trip(o, r5);
        },
        None => {
            assert(r4 =~= r5);
        },
    }
    lemma_skip_skip(s, 8 + l1 + l2 + l3, l4);
    lemma_concat_skip(e4, r5);
    assert(s.skip(8 + l1 + l2 + l3 + l4) == r5);
    lemma_cert_round_trip(c.pek, e6);
    lemma_skip_skip(s, 8 + l1 + l2 + l3 + l4, l5);
    lemma_concat_skip(e5, e6);
    assert(s.skip(8 + l1 + l2 + l3 + l4 + l5) == e6);
    assert(e6 =~= e6 + Seq::<u8>::empty());
    lemma_cert_round_trip(c.pdh, Seq::empty());
    assert(s.len() == 8 + l1 + l2 + l3 + l4 + l5 + l6);
}

/// Eight adjacent pieces of a byte sequence, concatenated right-nested,
/// cover the whole of it.
proof fn lemma_segments_cover(
    s: Seq<u8>,
    g: Seq<u8>,
    f: Seq<u8>,
    e1: Seq<u8>,
    e2: Seq<u8>,
    e3: Seq<u8>,
    e4: Seq<u8>,
    e5: Seq<u8>,
    e6: Seq<u8>,
)
    requires
        s.len() == g.len() + f.len() + e1.len() + e2.len() + e3.len() + e4.len() + e5.len()
            + e6.len(),
        g == s.subrange(0, g.len() as int),
        f == s.subrange(g.len() as int, (g.len() + f.len()) as int),
        e1 == s.subrange((g.len() + f.len()) as int, (g.len() + f.len() + e1.len()) as int),
        e2 == s.subrange(
            (g.len() + f.len() + e1.len()) as int,
            (g.len() + f.len() + e1.len() + e2.len()) as int,
        ),
        e3 == s.subrange(
            (g.len() + f.len() + e1.len() + e2.len()) as int,
            (g.len() + f.len() + e1.len() + e2.len() + e3.len()) as int,
        ),
        e4 == s.subrange(
            (g.len() + f.len() + e1.len() + e2.len() + e3.len()) as int,
            (g.len() + f.len() + e1.len() + e2.len() + e3.len() + e4.len()) as int,
        ),
        e5 == s.subrange(
            (g.len() + f.len() + e1.len() + e2.len() + e3.len() + e4.len()) as int,
            (g.len() + f.len() + e1.len() + e2.len() + e3.len() + e4.len() + e5.len()) as int,
        ),
        e6 == s.subrange(
            (g.len() + f.len() + e1.len() + e2.len() + e3.len() + e4.len() + e5.len()) as int,
            s.len() as int,
        ),
    ensures
        g + (f + (e1 + (e2 + (e3 + (e4 + (e5 + e6)))))) == s,
{
    assert(g + (f + (e1 + (e2 + (e3 + (e4 + (e5 + e6)))))) =~= s);
}

/// Any bytes the chain decoder accepts are exactly the encoding of the
/// well-formed chain it returns: together with the round trip above, the
/// wire format is canonical in both directions.
#[verifier::rlimit(100)]
#[verifier::spinoff_prover]
pub proof fn lemma_chain_canonical(s: Seq<u8>)
    requires
        spec_decode_chain(s) is Ok,
    ensures
        chain_wf(spec_decode_chain(s)->Ok_0),
        spec_encode_chain(spec_decode_chain(s)->Ok_0) == s,
{
    let c = spec_decode_chain(s)->Ok_0;
    let gt = spec_u32_of_le(s.subrange(0, 4));
    let presence = spec_u32_of_le(s.subrange(4, 8));
    lemma_le32_bytes_round_trip(s.subrange(0, 4));
    lemma_le32_bytes_round_trip(s.subrange(4, 8));
    assert(spec_generation_tag(c.generation) == gt);
    lemma_cert_canonical(s.skip(8));
    let (ark, u1) = spec_decode_cert_prefix(s.skip(8))->Ok_0;
    assert(s.skip(8).subrange(0, u1) =~= s.subrange(8, 8 + u1));
    lemma_cert_canonical(s.skip(8 + u1));
    let (ask, u2) = spec_decode_cert_prefix(s.skip(8 + u1))->Ok_0;
    assert(s.skip(8 + u1).subrange(0, u2) =~= s.subrange(8 + u1, 8 + u1 + u2));
    lemma_cert_canonical(s.skip(8 + u1 + u2));
    let (cek, u3) = spec_decode_cert_prefix(s.skip(8 + u1 + u2))->Ok_0;
    assert(s.skip(8 + u1 + u2).subrange(0, u3) =~= s.subrange(8 + u1 + u2, 8 + u1 + u2 + u3));
    let o3 = 8 + u1 + u2 + u3;
    let o4 = if presence == 1 {
        let (oca, u4) = spec_decode_cert_prefix(s.skip(o3))->Ok_0;
        lemma_cert_canonical(s.skip(o3));
        assert(s.skip(o3).subrange(0, u4) =~= s.subrange(o3, o3 + u4));
        o3 + u4
    } else {
        o3
    };
    assert(spec_oca_presence(c) == presence);
    assert(spec_encode_oca(c) =~= s.subrange(o3, o4));
    lemma_cert_canonical(s.skip(o4));
    let (pek, u5) = spec_decode_cert_prefix(s.skip(o4))->Ok_0;
    assert(s.skip(o4).subrange(0, u5) =~= s.subrange(o4, o4 + u5));
    lemma_cert_canonical(s.skip(o4 + u5));
    let (pdh, u6) = spec_decode_cert_prefix(s.skip(o4 + u5))->Ok_0;
    assert(s.skip(o4 + u5).subrange(0, u6) =~= s.subrange(o4 + u5, o4 + u5 + u6));
    assert(o4 + u5 + u6 == s.len());
    assert(c.ark == ark && c.ask == ask && c.cek == cek && c.pek == pek && c.pdh == pdh);
    lemma_segments_cover(
        s,
        spec_le32_bytes(spec_generation_tag(c.generation)),
        spec_le32_bytes(spec_oca_presence(c)),
        spec_encode_cert(c.ark),
        spec_encode_cert(c.ask),
        spec_encode_cert(c.cek),
        spec_encode_oca(c),
        spec_encode_cert(c.pek),
        spec_encode_cert(c.pdh),
    );
}

} // verus!
