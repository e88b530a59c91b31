//! Trust establishment for AMD SEV guests.
//!
//! The library models the pieces a host needs to launch a hardware-encrypted
//! guest and to check, by attestation, that the guest runs the expected image:
//! a certificate chain rooted in a per-generation trusted key, a session that
//! derives transport keys and an expected launch measurement, and a launch
//! state machine that orders the privileged platform calls.

use vstd::prelude::*;

pub mod codec;
pub mod certs;
pub mod chain;
pub mod crypto;
pub mod error;
pub mod firmware;
pub mod guest;
pub mod launch;
pub mod policy;
pub mod session;

verus! {

/// A firmware API version, ordered by major number first, then minor.
#[derive(Clone, Copy, Debug, PartialEq, Eq, Structural)]
pub struct Version {
    /// Major version number.
    pub major: u8,
    /// Minor version number.
    pub minor: u8,
}

/// True when version `a` is the same as or later than version `b`.
pub open spec fn spec_version_at_least(a: Version, b: Version) -> bool {
    a.major > b.major || (a.major == b.major && a.minor >= b.minor)
}

impl Version {
    /// Build a version from its two numbers.
    pub fn new(major: u8, minor: u8) -> (r: Version)
        ensures
            r.major == major,
            r.minor == minor,
    {
        Version { major, minor }
    }

    /// Compare against a required minimum version.
    pub fn at_least(&self, other: &Version) -> (r: bool)
        ensures
            r == spec_version_at_least(*self, *other),
    {
        self.major > other.major || (self.major == other.major && self.minor >= other.minor)
    }
}

impl Default for Version {
    /// The zero version.
    fn default() -> (r: Version)
        ensures
            r == (Version { major: 0, minor: 0 }),
    {
        Version { major: 0, minor: 0 }
    }
}

/// A firmware build: the API version plus a build number.
#[derive(Clone, Copy, Debug, PartialEq, Eq, Structural)]
pub struct Build {
    /// The API version the firmware implements.
    pub version: Version,
    /// The firmware build number.
    pub build: u32,
}

impl Build {
    /// Build value from its parts.
    pub fn new(version: Version, build: u32) -> (r: Build)
        ensures
            r.version == version,
            r.build == build,
    {
        Build { version, build }
    }
}

impl Default for Build {
    /// The zero build.
    fn default() -> (r: Build)
        ensures
            r == (Build { version: Version { major: 0, minor: 0 }, build: 0 }),
    {
        Build { version: Version { major: 0, minor: 0 }, build: 0 }
    }
}

} // verus!
