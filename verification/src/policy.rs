//! Guest launch policy and its checks against the platform's capabilities.
//!
//! A policy is a little-endian bit-flag word: the low bits carry the flags,
//! the third byte the minimum API major version and the fourth byte the
//! minimum minor version. The bit layout is wire-compatible and pinned by
//! the encoding specification below.

use vstd::prelude::*;

use crate::firmware::Status;
use crate::{spec_version_at_least, Version};

verus! {

/// What a guest launch policy demands of the platform.
#[derive(Clone, Copy, Debug, PartialEq, Eq, Structural)]
pub struct Policy {
    /// The guest must not be debugged.
    pub no_debug: bool,
    /// The guest's key must not be shared with other guests.
    pub no_key_sharing: bool,
    /// Encrypted-state functionality is required.
    pub encrypted_state: bool,
    /// The guest must stay on a single socket.
    pub single_socket: bool,
    /// The least firmware API version the guest accepts.
    pub minfw: Version,
}

impl Default for Policy {
    /// The permissive policy: no flag set, any firmware version accepted.
    fn default() -> (r: Policy)
        ensures
            r == (Policy {
                no_debug: false,
                no_key_sharing: false,
                encrypted_state: false,
                single_socket: false,
                minfw: Version { major: 0, minor: 0 },
            }),
    {
        Policy {
            no_debug: false,
            no_key_sharing: false,
            encrypted_state: false,
            single_socket: false,
            minfw: Version { major: 0, minor: 0 },
        }
    }
}

/// The little-endian policy word: bit 0 forbids debugging, bit 1 forbids key
/// sharing, bit 2 requires encrypted state, bit 3 pins a single socket; the
/// third byte is the minimum API major version and the fourth the minimum
/// minor version.
pub open spec fn spec_policy_bits(p: Policy) -> u32 {
    ((if p.no_debug {
        1int
    } else {
        0
    }) + (if p.no_key_sharing {
        2int
    } else {
        0
    }) + (if p.encrypted_state {
        4int
    } else {
        0
    }) + (if p.single_socket {
        8int
    } else {
        0
    }) + p.minfw.major * 0x10000 + p.minfw.minor * 0x1000000) as u32
}

/// Why a policy is incompatible with a platform.
#[derive(Clone, Copy, Debug, PartialEq, Eq, Structural)]
pub enum PolicyError {
    /// The policy requires encrypted state, which the platform lacks.
    EncryptedStateUnsupported,
    /// The platform firmware is older than the policy's minimum version.
    FirmwareTooOld,
}

impl Policy {
    /// Encode the policy as its little-endian bit word.
    pub fn bits(&self) -> (r: u32)
        ensures
            r == spec_policy_bits(*self),
    {
        let mut r: u32 = 0;
        if self.no_debug {
            r = r + 1;
        }
        if self.no_key_sharing {
            r = r + 2;
        }
        if self.encrypted_state {
            r = r + 4;
        }
        if self.single_socket {
            r = r + 8;
        }
        r = r + (self.minfw.major as u32) * 0x10000;
        r = r + (self.minfw.minor as u32) * 0x1000000;
        r
    }

    /// Decode a policy word; the reserved bits (4 to 15) must be clear, and
    /// malformed words are never silently defaulted.
    pub fn from_bits(bits: u32) -> (r: Option<Policy>)
        ensures
            r matches Some(p) ==> spec_policy_bits(p) == bits,
            r is Some <==> bits & 0xfff0 == 0,
    {
        if bits & 0xfff0 != 0 {
            return None;
        }
        let p = Policy {
            no_debug: bits & 0x1 != 0,
            no_key_sharing: bits & 0x2 != 0,
            encrypted_state: bits & 0x4 != 0,
            single_socket: bits & 0x8 != 0,
            minfw: Version {
                major: ((bits >> 16) & 0xff) as u8,
                minor: ((bits >> 24) & 0xff) as u8,
            },
        };
        proof {
            let b = bits;
            assert((if b & 0x1 != 0 {
                1int
            } else {
                0
            }) + (if b & 0x2 != 0 {
                2int
            } else {
                0
            }) + (if b & 0x4 != 0 {
                4int
            } else {
                0
            }) + (if b & 0x8 != 0 {
                8int
            } else {
                0
            }) + ((b >> 16) & 0xff) * 0x10000 + ((b >> 24) & 0xff) * 0x1000000 == b || b & 0xfff0
                != 0) by (bit_vector);
            assert(((b >> 16) & 0xff) < 256 && ((b >> 24) & 0xff) < 256) by (bit_vector);
        }
        Some(p)
    }

    /// Check the policy against what the platform advertises: encrypted
    /// state must be present when required, and the firmware must be at
    /// least the policy's minimum version. The first failing demand, in that
    /// order, is reported. The single-socket demand has no counterpart here:
    /// the status record carries no socket count to check it against, so it
    /// is enforced by the firmware at launch alone.
    pub fn validate_against(&self, status: &Status) -> (r: Result<(), PolicyError>)
        ensures
            r is Ok <==> (!(self.encrypted_state && !status.flags.encrypted_state)
                && spec_version_at_least(status.build.version, self.minfw)),
            r == Err::<(), PolicyError>(PolicyError::EncryptedStateUnsupported) <==> (
            self.encrypted_state && !status.flags.encrypted_state),
            r == Err::<(), PolicyError>(PolicyError::FirmwareTooOld) <==> (!(self.encrypted_state
                && !status.flags.encrypted_state) && !spec_version_at_least(
                status.build.version,
                self.minfw,
            )),
    {
        if self.encrypted_state && !status.flags.encrypted_state {
            return Err(PolicyError::EncryptedStateUnsupported);
        }
        if !status.build.version.at_least(&self.minfw) {
            return Err(PolicyError::FirmwareTooOld);
        }
        Ok(())
    }
}

/// A SEV-SNP guest policy word: the flags and minimums a guest demands,
/// encoded little-endian in a 64-bit word. The low byte is the minimum ABI
/// minor version and the second byte the minimum ABI major version.
#[derive(Clone, Copy, Debug, PartialEq, Eq, Structural)]
pub struct SnpPolicy {
    /// The raw policy word as the firmware reports it.
    pub bits: u64,
}

impl SnpPolicy {
    /// Wrap a raw policy word.
    pub fn from_bits(bits: u64) -> (r: SnpPolicy)
        ensures
            r.bits == bits,
    {
        SnpPolicy { bits }
    }

    /// The minimum ABI minor version the guest demands.
    pub fn abi_minor(&self) -> (r: u8)
        ensures
            r == (self.bits & 0xff) as u8,
    {
        (self.bits & 0xff) as u8
    }

    /// The minimum ABI major version the guest demands.
    pub fn abi_major(&self) -> (r: u8)
        ensures
            r == ((self.bits >> 8) & 0xff) as u8,
    {
        ((self.bits >> 8) & 0xff) as u8
    }

    /// Whether simultaneous multithreading is allowed (bit 16).
    pub fn smt_allowed(&self) -> (r: bool)
        ensures
            r == (self.bits & 0x10000 != 0),
    {
        self.bits & 0x10000 != 0
    }

    /// Whether a migration agent may be associated (bit 18).
    pub fn migrate_ma_allowed(&self) -> (r: bool)
        ensures
            r == (self.bits & 0x40000 != 0),
    {
        self.bits & 0x40000 != 0
    }

    /// Whether debugging is allowed (bit 19).
    pub fn debug_allowed(&self) -> (r: bool)
        ensures
            r == (self.bits & 0x80000 != 0),
    {
        self.bits & 0x80000 != 0
    }

    /// Whether the guest must stay on a single socket (bit 20).
    pub fn single_socket_required(&self) -> (r: bool)
        ensures
            r == (self.bits & 0x100000 != 0),
    {
        self.bits & 0x100000 != 0
    }
}

impl Default for SnpPolicy {
    /// The all-clear policy word.
    fn default() -> (r: SnpPolicy)
        ensures
            r.bits == 0,
    {
        SnpPolicy { bits: 0 }
    }
}

} // verus!
