//! The firmware status-code taxonomy.
//!
//! The platform answers every privileged call with a small integer status.
//! Zero is success; the nonzero codes map to a fixed set of error kinds, and
//! a code outside that set is preserved as indeterminate rather than coerced
//! into a guessed kind.

use vstd::prelude::*;

verus! {

/// An error kind reported by the platform firmware.
#[derive(Clone, Copy, Debug, PartialEq, Eq, Structural)]
pub enum Error {
    /// The platform is in the wrong state for the request.
    InvalidPlatformState,
    /// The guest is in the wrong state for the request.
    InvalidGuestState,
    /// The platform configuration is invalid.
    InvalidConfig,
    /// A buffer length is too small or otherwise invalid.
    InvalidLen,
    /// The platform is already owned.
    AlreadyOwned,
    /// A certificate is invalid.
    InvalidCertificate,
    /// A request was rejected by the guest policy.
    PolicyFailure,
    /// The guest is inactive.
    Inactive,
    /// A provided address is invalid.
    InvalidAddress,
    /// A signature check inside the firmware failed.
    BadSignature,
    /// A measurement check inside the firmware failed.
    BadMeasurement,
    /// The ASID is already owned.
    AsidOwned,
    /// The ASID is invalid.
    InvalidAsid,
    /// A WBINVD instruction is required.
    WbinvdRequired,
    /// A DF_FLUSH invocation is required.
    DfFlushRequired,
    /// The guest handle is invalid.
    InvalidGuest,
    /// The command code is invalid.
    InvalidCommand,
    /// The guest is active.
    Active,
    /// A hardware condition occurred; the platform is usable.
    HardwarePlatform,
    /// A hardware condition occurred; data may be lost.
    HardwareUnsafe,
    /// The feature is unsupported.
    Unsupported,
    /// A parameter is invalid.
    InvalidParam,
    /// A firmware resource limit was reached.
    ResourceLimit,
    /// The platform's secure data is invalid.
    SecureDataInvalid,
}

/// A firmware error that may fall outside the known enumeration: unknown
/// codes are kept as they came, never coerced into a known kind.
#[derive(Clone, Copy, Debug, PartialEq, Eq, Structural)]
pub enum Indeterminate {
    /// A recognized firmware error.
    Known(Error),
    /// A status code outside the known enumeration, kept verbatim.
    Unknown(u32),
}

/// The error kind a nonzero firmware status code stands for, if recognized.
pub open spec fn spec_error_of_code(code: u32) -> Indeterminate {
    if code == 1 {
        Indeterminate::Known(Error::InvalidPlatformState)
    } else if code == 2 {
        Indeterminate::Known(Error::InvalidGuestState)
    } else if code == 3 {
        Indeterminate::Known(Error::InvalidConfig)
    } else if code == 4 {
        Indeterminate::Known(Error::InvalidLen)
    } else if code == 5 {
        Indeterminate::Known(Error::AlreadyOwned)
    } else if code == 6 {
        Indeterminate::Known(Error::InvalidCertificate)
    } else if code == 7 {
        Indeterminate::Known(Error::PolicyFailure)
    } else if code == 8 {
        Indeterminate::Known(Error::Inactive)
    } else if code == 9 {
        Indeterminate::Known(Error::InvalidAddress)
    } else if code == 10 {
        Indeterminate::Known(Error::BadSignature)
    } else if code == 11 {
        Indeterminate::Known(Error::BadMeasurement)
    } else if code == 12 {
        Indeterminate::Known(Error::AsidOwned)
    } else if code == 13 {
        Indeterminate::Known(Error::InvalidAsid)
    } else if code == 14 {
        Indeterminate::Known(Error::WbinvdRequired)
    } else if code == 15 {
        Indeterminate::Known(Error::DfFlushRequired)
    } else if code == 16 {
        Indeterminate::Known(Error::InvalidGuest)
    } else if code == 17 {
        Indeterminate::Known(Error::InvalidCommand)
    } else if code == 18 {
        Indeterminate::Known(Error::Active)
    } else if code == 19 {
        Indeterminate::Known(Error::HardwarePlatform)
    } else if code == 20 {
        Indeterminate::Known(Error::HardwareUnsafe)
    } else if code == 21 {
        Indeterminate::Known(Error::Unsupported)
    } else if code == 22 {
        Indeterminate::Known(Error::InvalidParam)
    } else if code == 23 {
        Indeterminate::Known(Error::ResourceLimit)
    } else if code == 24 {
        Indeterminate::Known(Error::SecureDataInvalid)
    } else {
        Indeterminate::Unknown(code)
    }
}

/// Interpret a raw firmware status code: zero is success, anything else is
/// the error the code enumerates, or an unknown code kept verbatim.
pub fn interpret_status(code: u32) -> (r: Result<(), Indeterminate>)
    ensures
        r is Ok <==> code == 0,
        r matches Err(e) ==> e == spec_error_of_code(code),
{
    if code == 0 {
        return Ok(());
    }
    let err = match code {
        1 => Indeterminate::Known(Error::InvalidPlatformState),
        2 => Indeterminate::Known(Error::InvalidGuestState),
        3 => Indeterminate::Known(Error::InvalidConfig),
        4 => Indeterminate::Known(Error::InvalidLen),
        5 => Indeterminate::Known(Error::AlreadyOwned),
        6 => Indeterminate::Known(Error::InvalidCertificate),
        7 => Indeterminate::Known(Error::PolicyFailure),
        8 => Indeterminate::Known(Error::Inactive),
        9 => Indeterminate::Known(Error::InvalidAddress),
        10 => Indeterminate::Known(Error::BadSignature),
        11 => Indeterminate::Known(Error::BadMeasurement),
        12 => Indeterminate::Known(Error::AsidOwned),
        13 => Indeterminate::Known(Error::InvalidAsid),
        14 => Indeterminate::Known(Error::WbinvdRequired),
        15 => Indeterminate::Known(Error::DfFlushRequired),
        16 => Indeterminate::Known(Error::InvalidGuest),
        17 => Indeterminate::Known(Error::InvalidCommand),
        18 => Indeterminate::Known(Error::Active),
        19 => Indeterminate::Known(Error::HardwarePlatform),
        20 => Indeterminate::Known(Error::HardwareUnsafe),
        21 => Indeterminate::Known(Error::Unsupported),
        22 => Indeterminate::Known(Error::InvalidParam),
        23 => Indeterminate::Known(Error::ResourceLimit),
        24 => Indeterminate::Known(Error::SecureDataInvalid),
        _ => Indeterminate::Unknown(code),
    };
    Err(err)
}

} // verus!
