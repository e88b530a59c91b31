//! Guest-side attestation report and derived-key request structures.
//!
//! These mirror the fixed-size records the guest firmware consumes and
//! produces. The byte-array fields are held as vectors with fixed lengths;
//! well-formedness pins every length.

use vstd::prelude::*;

use crate::firmware::TcbVersion;
use crate::policy::SnpPolicy;
use crate::Version;

verus! {

/// A vector of `n` zero bytes.
pub fn zero_bytes(n: usize) -> (r: Vec<u8>)
    ensures
        r@.len() == n,
        forall|i: int| 0 <= i < n ==> r@[i] == 0,
{
    let mut out: Vec<u8> = Vec::new();
    let mut i: usize = 0;
    while i < n
        invariant
            i <= n,
            out@.len() == i,
            forall|j: int| 0 <= j < i ==> out@[j] == 0,
        decreases n - i,
    {
        out.push(0);
        i = i + 1;
    }
    out
}

/// A request for an attestation report.
#[derive(Clone, Debug, PartialEq)]
pub struct SnpReportRequest {
    /// Message version number (must be non-zero).
    pub msg_version: u8,
    /// User data to be included in the report; 64 bytes.
    pub user_data: Vec<u8>,
}

/// Whether a report request is well-formed: a non-zero message version and
/// exactly 64 bytes of user data.
pub open spec fn report_request_wf(r: SnpReportRequest) -> bool {
    r.msg_version != 0 && r.user_data@.len() == 64
}

impl SnpReportRequest {
    /// Build a well-formed request around caller data.
    pub fn new(msg_version: u8, user_data: Vec<u8>) -> (r: Result<SnpReportRequest, ()>)
        ensures
            r is Ok <==> (msg_version != 0 && user_data@.len() == 64),
            r matches Ok(q) ==> q == (SnpReportRequest { msg_version, user_data })
                && report_request_wf(q),
    {
        if msg_version == 0 || user_data.len() != 64 {
            return Err(());
        }
        Ok(SnpReportRequest { msg_version, user_data })
    }
}

/// SNP guest attestation report data.
#[derive(Clone, Debug, PartialEq)]
pub struct SnpGetReport {
    /// Version number.
    pub version: Version,
    /// Security version number of the SNP firmware.
    pub guest_svn: u32,
    /// Guest policy.
    pub policy: SnpPolicy,
    /// Family ID of the guest; 16 bytes.
    pub family_id: Vec<u8>,
    /// Image ID of the guest; 16 bytes.
    pub image_id: Vec<u8>,
    /// VM permission level.
    pub vmpl: u32,
    /// Signature algorithm used to sign this report.
    pub sig_algo: u32,
    /// Platform version.
    pub platform_version: TcbVersion,
    /// Information about the platform.
    pub plat_info: u64,
    /// Whether the author key is present in the ID authentication structure.
    pub auth_key_en: u32,
    /// Guest-provided data; 64 bytes.
    pub report_data: Vec<u8>,
    /// Guest measurement calculated at launch; 48 bytes.
    pub measurement: Vec<u8>,
    /// Data provided to the hypervisor at launch; 32 bytes.
    pub host_data: Vec<u8>,
    /// Digest of the ID public key that signed the ID block; 48 bytes.
    pub id_key_digest: Vec<u8>,
    /// Digest of the author public key that certified the ID key; 48 bytes.
    pub author_key_digest: Vec<u8>,
    /// Report ID of the guest; 32 bytes.
    pub report_id: Vec<u8>,
    /// Report ID of the guest's migration agent; 32 bytes.
    pub report_id_ma: Vec<u8>,
    /// Reported TCB version used to derive the signing key.
    pub reported_tcb: TcbVersion,
    /// Identifier unique to the chip, unless masked; 64 bytes.
    pub chip_id: Vec<u8>,
}

/// An all-zero byte sequence of a fixed length.
pub open spec fn bytes_zeroed(s: Seq<u8>, n: nat) -> bool {
    s.len() == n && forall|i: int| 0 <= i < s.len() ==> s[i] == 0
}

/// Whether a report's byte fields have their fixed sizes.
pub open spec fn report_wf(r: SnpGetReport) -> bool {
    &&& r.family_id@.len() == 16
    &&& r.image_id@.len() == 16
    &&& r.report_data@.len() == 64
    &&& r.measurement@.len() == 48
    &&& r.host_data@.len() == 32
    &&& r.id_key_digest@.len() == 48
    &&& r.author_key_digest@.len() == 48
    &&& r.report_id@.len() == 32
    &&& r.report_id_ma@.len() == 32
    &&& r.chip_id@.len() == 64
}

impl Default for SnpGetReport {
    /// The all-zero report, with every field at its fixed size.
    fn default() -> (r: SnpGetReport)
        ensures
            report_wf(r),
            report_zeroed(r),
    {
        SnpGetReport {
            version: Version { major: 0, minor: 0 },
            guest_svn: 0,
            policy: SnpPolicy { bits: 0 },
            family_id: zero_bytes(16),
            image_id: zero_bytes(16),
            vmpl: 0,
            sig_algo: 0,
            platform_version: TcbVersion { bootloader: 0, tee: 0, snp: 0, microcode: 0 },
            plat_info: 0,
            auth_key_en: 0,
            report_data: zero_bytes(64),
            measurement: zero_bytes(48),
            host_data: zero_bytes(32),
            id_key_digest: zero_bytes(48),
            author_key_digest: zero_bytes(48),
            report_id: zero_bytes(32),
            report_id_ma: zero_bytes(32),
            reported_tcb: TcbVersion { bootloader: 0, tee: 0, snp: 0, microcode: 0 },
            chip_id: zero_bytes(64),
        }
    }
}

/// The response to a report request: a status word, the size of the valid
/// part, the report, and the certificate data handed along with it.
#[derive(Clone, Debug, PartialEq)]
pub struct SnpReportResponse {
    /// Status of the request.
    pub status: u32,
    /// Size of the valid report bytes.
    pub size: u32,
    /// The attestation report.
    pub report: SnpGetReport,
    /// Certificate data accompanying the report; 3476 bytes.
    pub certs_data: Vec<u8>,
}

/// A report with every field zero and every byte array all-zero at its
/// fixed size.
pub open spec fn report_zeroed(r: SnpGetReport) -> bool {
    &&& r.version == (Version { major: 0, minor: 0 })
    &&& r.guest_svn == 0
    &&& r.policy.bits == 0
    &&& r.vmpl == 0
    &&& r.sig_algo == 0
    &&& r.platform_version == (TcbVersion { bootloader: 0, tee: 0, snp: 0, microcode: 0 })
    &&& r.plat_info == 0
    &&& r.auth_key_en == 0
    &&& r.reported_tcb == (TcbVersion { bootloader: 0, tee: 0, snp: 0, microcode: 0 })
    &&& bytes_zeroed(r.family_id@, 16)
    &&& bytes_zeroed(r.image_id@, 16)
    &&& bytes_zeroed(r.report_data@, 64)
    &&& bytes_zeroed(r.measurement@, 48)
    &&& bytes_zeroed(r.host_data@, 32)
    &&& bytes_zeroed(r.id_key_digest@, 48)
    &&& bytes_zeroed(r.author_key_digest@, 48)
    &&& bytes_zeroed(r.report_id@, 32)
    &&& bytes_zeroed(r.report_id_ma@, 32)
    &&& bytes_zeroed(r.chip_id@, 64)
}

/// Whether a response's byte fields have their fixed sizes.
pub open spec fn report_response_wf(r: SnpReportResponse) -> bool {
    report_wf(r.report) && r.certs_data@.len() == 3476
}

impl Default for SnpReportResponse {
    /// The all-zero response: status and size clear, the report the all-zero
    /// default report, and the certificate data all zero.
    fn default() -> (r: SnpReportResponse)
        ensures
            report_response_wf(r),
            r.status == 0,
            r.size == 0,
            report_zeroed(r.report),
            bytes_zeroed(r.certs_data@, 3476),
    {
        SnpReportResponse {
            status: 0,
            size: 0,
            report: SnpGetReport::default(),
            certs_data: zero_bytes(3476),
        }
    }
}

/// Which guest data is mixed into a derived key.
#[derive(Clone, Copy, Debug, PartialEq, Eq, Structural)]
pub struct GuestFieldSelect {
    /// The raw selection word.
    pub bits: u64,
}

impl GuestFieldSelect {
    /// Wrap a raw selection word.
    pub fn from_bits(bits: u64) -> (r: GuestFieldSelect)
        ensures
            r.bits == bits,
    {
        GuestFieldSelect { bits }
    }

    /// Whether the guest policy is mixed into the key (bit 0).
    pub fn guest_policy(&self) -> (r: bool)
        ensures
            r == (self.bits & 0x1 != 0),
    {
        self.bits & 0x1 != 0
    }

    /// Whether the image ID is mixed into the key (bit 1).
    pub fn image_id(&self) -> (r: bool)
        ensures
            r == (self.bits & 0x2 != 0),
    {
        self.bits & 0x2 != 0
    }

    /// Whether the family ID is mixed into the key (bit 2).
    pub fn family_id(&self) -> (r: bool)
        ensures
            r == (self.bits & 0x4 != 0),
    {
        self.bits & 0x4 != 0
    }

    /// Whether the launch measurement is mixed into the key (bit 3).
    pub fn measurement(&self) -> (r: bool)
        ensures
            r == (self.bits & 0x8 != 0),
    {
        self.bits & 0x8 != 0
    }

    /// Whether the guest-provided SVN is mixed into the key (bit 4).
    pub fn guest_svn(&self) -> (r: bool)
        ensures
            r == (self.bits & 0x10 != 0),
    {
        self.bits & 0x10 != 0
    }

    /// Whether the TCB version is mixed into the key (bit 5).
    pub fn tcb_version(&self) -> (r: bool)
        ensures
            r == (self.bits & 0x20 != 0),
    {
        self.bits & 0x20 != 0
    }
}

impl Default for GuestFieldSelect {
    /// Nothing selected.
    fn default() -> (r: GuestFieldSelect)
        ensures
            r.bits == 0,
    {
        GuestFieldSelect { bits: 0 }
    }
}

/// A request for a derived key.
#[derive(Clone, Copy, Debug, PartialEq, Eq, Structural)]
pub struct SnpDerivedKeyRequest {
    /// Selects the root key to derive from: zero for the versioned chip
    /// endorsement key, one for the versioned migration root key.
    pub root_key_select: u32,
    /// Which guest data is mixed into the derived key.
    pub guest_field_select: GuestFieldSelect,
    /// The VM permission level to mix into the derived key; must not be
    /// below the caller's own level.
    pub vmpl: u32,
    /// The guest SVN to mix into the key; must not exceed the SVN provided
    /// at launch.
    pub guest_svn: u32,
    /// The TCB version to mix into the key; must not exceed the current one.
    pub tcb_version: TcbVersion,
}

/// The response to a derived-key request.
#[derive(Clone, Debug, PartialEq)]
pub struct SnpDerivedKeyResponse {
    /// Status of the request.
    pub status: u32,
    /// The derived key; 32 bytes.
    pub key: Vec<u8>,
}

/// Whether a derived-key response carries a key of the fixed size.
pub open spec fn derived_key_response_wf(r: SnpDerivedKeyResponse) -> bool {
    r.key@.len() == 32
}

impl Default for SnpDerivedKeyResponse {
    /// The all-zero response.
    fn default() -> (r: SnpDerivedKeyResponse)
        ensures
            derived_key_response_wf(r),
            r.status == 0,
            bytes_zeroed(r.key@, 32),
    {
        SnpDerivedKeyResponse { status: 0, key: zero_bytes(32) }
    }
}

/// A derived-key request with its message header.
#[derive(Clone, Copy, Debug, PartialEq, Eq, Structural)]
pub struct SnpDerivedKeyRequestHeader {
    /// Message version number.
    pub msg_version: u8,
    /// The derived-key request data.
    pub req: SnpDerivedKeyRequest,
}

} // verus!
