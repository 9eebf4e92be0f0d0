//! The verification oracle's result-code taxonomy.
//!
//! The oracle reports the outcome of a quote verification as a numeric code.
//! Nine codes are documented; anything else is treated as unrecognized and,
//! by the fail-closed rule, later classified as a rejection.

use vstd::prelude::*;

verus! {

/// Raw value the oracle reports when the quote verified cleanly.
pub const RAW_OK: u32 = 0x0000;

/// Raw value for "platform configuration change is needed".
pub const RAW_CONFIG_NEEDED: u32 = 0xA001;

/// Raw value for "the platform's TCB is out of date".
pub const RAW_OUT_OF_DATE: u32 = 0xA002;

/// Raw value for "TCB out of date and configuration change needed".
pub const RAW_OUT_OF_DATE_CONFIG_NEEDED: u32 = 0xA003;

/// Raw value for "the quote's signature is invalid".
pub const RAW_INVALID_SIGNATURE: u32 = 0xA004;

/// Raw value for "the attestation key or platform has been revoked".
pub const RAW_REVOKED: u32 = 0xA005;

/// Raw value for "verification failed for an unspecified reason".
pub const RAW_UNSPECIFIED: u32 = 0xA006;

/// Raw value for "software hardening is needed".
pub const RAW_SW_HARDENING_NEEDED: u32 = 0xA007;

/// Raw value for "configuration change and software hardening are needed".
pub const RAW_CONFIG_AND_SW_HARDENING_NEEDED: u32 = 0xA008;

/// A quote-verification result code, decoded from the oracle's raw value.
///
/// The first six variants are outcomes the verification protocol can act on;
/// the remaining ones are terminal. A raw value outside the documented nine
/// decodes to `Unrecognized`, never silently to an accepting variant.
#[derive(Clone, Copy, Debug, PartialEq, Eq, Structural)]
pub enum QvResultCode {
    /// The quote verified cleanly.
    Passed,
    /// Valid quote, but a platform configuration change is needed.
    ConfigNeeded,
    /// Valid quote, but the platform's TCB is out of date.
    OutOfDate,
    /// Valid quote, TCB out of date and a configuration change is needed.
    OutOfDateConfigNeeded,
    /// Valid quote, but software hardening is needed.
    SwHardeningNeeded,
    /// Valid quote, configuration change and software hardening are needed.
    ConfigAndSwHardeningNeeded,
    /// The quote's signature is invalid.
    InvalidSignature,
    /// The attestation key or platform has been revoked.
    Revoked,
    /// Verification failed for an unspecified reason.
    Unspecified,
    /// A raw value outside the documented nine, kept for reporting.
    Unrecognized(u32),
}

/// Whether `raw` is one of the nine documented result-code values.
pub open spec fn is_documented_raw(raw: u32) -> bool {
    ||| raw == RAW_OK
    ||| raw == RAW_CONFIG_NEEDED
    ||| raw == RAW_OUT_OF_DATE
    ||| raw == RAW_OUT_OF_DATE_CONFIG_NEEDED
    ||| raw == RAW_INVALID_SIGNATURE
    ||| raw == RAW_REVOKED
    ||| raw == RAW_UNSPECIFIED
    ||| raw == RAW_SW_HARDENING_NEEDED
    ||| raw == RAW_CONFIG_AND_SW_HARDENING_NEEDED
}

/// The decoding of a raw oracle value into a result code.
pub open spec fn spec_code_of_raw(raw: u32) -> QvResultCode {
    if raw == RAW_OK {
        QvResultCode::Passed
    } else if raw == RAW_CONFIG_NEEDED {
        QvResultCode::ConfigNeeded
    } else if raw == RAW_OUT_OF_DATE {
        QvResultCode::OutOfDate
    } else if raw == RAW_OUT_OF_DATE_CONFIG_NEEDED {
        QvResultCode::OutOfDateConfigNeeded
    } else if raw == RAW_INVALID_SIGNATURE {
        QvResultCode::InvalidSignature
    } else if raw == RAW_REVOKED {
        QvResultCode::Revoked
    } else if raw == RAW_UNSPECIFIED {
        QvResultCode::Unspecified
    } else if raw == RAW_SW_HARDENING_NEEDED {
        QvResultCode::SwHardeningNeeded
    } else if raw == RAW_CONFIG_AND_SW_HARDENING_NEEDED {
        QvResultCode::ConfigAndSwHardeningNeeded
    } else {
        QvResultCode::Unrecognized(raw)
    }
}

/// The raw oracle value a result code stands for.
pub open spec fn spec_raw_of_code(code: QvResultCode) -> u32 {
    match code {
        QvResultCode::Passed => RAW_OK,
        QvResultCode::ConfigNeeded => RAW_CONFIG_NEEDED,
        QvResultCode::OutOfDate => RAW_OUT_OF_DATE,
        QvResultCode::OutOfDateConfigNeeded => RAW_OUT_OF_DATE_CONFIG_NEEDED,
        QvResultCode::SwHardeningNeeded => RAW_SW_HARDENING_NEEDED,
        QvResultCode::ConfigAndSwHardeningNeeded => RAW_CONFIG_AND_SW_HARDENING_NEEDED,
        QvResultCode::InvalidSignature => RAW_INVALID_SIGNATURE,
        QvResultCode::Revoked => RAW_REVOKED,
        QvResultCode::Unspecified => RAW_UNSPECIFIED,
        QvResultCode::Unrecognized(raw) => raw,
    }
}

impl QvResultCode {
    /// A code is well formed when `Unrecognized` carries no documented value,
    /// so that every raw value has exactly one decoded form.
    pub open spec fn well_formed(self) -> bool {
        match self {
            QvResultCode::Unrecognized(raw) => !is_documented_raw(raw),
            _ => true,
        }
    }

    /// Whether this code is a terminal (rejection-class) outcome.
    pub open spec fn is_terminal(self) -> bool {
        match self {
            QvResultCode::InvalidSignature => true,
            QvResultCode::Revoked => true,
            QvResultCode::Unspecified => true,
            QvResultCode::Unrecognized(_) => true,
            _ => false,
        }
    }

    /// Whether this code is a non-terminal, policy-dependent condition.
    pub open spec fn is_warning(self) -> bool {
        match self {
            QvResultCode::ConfigNeeded => true,
            QvResultCode::OutOfDate => true,
            QvResultCode::OutOfDateConfigNeeded => true,
            QvResultCode::SwHardeningNeeded => true,
            QvResultCode::ConfigAndSwHardeningNeeded => true,
            _ => false,
        }
    }

    /// Decodes the oracle's raw result value.
    pub fn from_raw(raw: u32) -> (code: QvResultCode)
        ensures
            code == spec_code_of_raw(raw),
            code.well_formed(),
    {
        if raw == RAW_OK {
            QvResultCode::Passed
        } else if raw == RAW_CONFIG_NEEDED {
            QvResultCode::ConfigNeeded
        } else if raw == RAW_OUT_OF_DATE {
            QvResultCode::OutOfDate
        } else if raw == RAW_OUT_OF_DATE_CONFIG_NEEDED {
            QvResultCode::OutOfDateConfigNeeded
        } else if raw == RAW_INVALID_SIGNATURE {
            QvResultCode::InvalidSignature
        } else if raw == RAW_REVOKED {
            QvResultCode::Revoked
        } else if raw == RAW_UNSPECIFIED {
            QvResultCode::Unspecified
        } else if raw == RAW_SW_HARDENING_NEEDED {
            QvResultCode::SwHardeningNeeded
        } else if raw == RAW_CONFIG_AND_SW_HARDENING_NEEDED {
            QvResultCode::ConfigAndSwHardeningNeeded
        } else {
            QvResultCode::Unrecognized(raw)
        }
    }

    /// The raw oracle value this code stands for.
    pub fn raw_value(&self) -> (raw: u32)
        ensures
            raw == spec_raw_of_code(*self),
    {
        match *self {
            QvResultCode::Passed => RAW_OK,
            QvResultCode::ConfigNeeded => RAW_CONFIG_NEEDED,
            QvResultCode::OutOfDate => RAW_OUT_OF_DATE,
            QvResultCode::OutOfDateConfigNeeded => RAW_OUT_OF_DATE_CONFIG_NEEDED,
            QvResultCode::SwHardeningNeeded => RAW_SW_HARDENING_NEEDED,
            QvResultCode::ConfigAndSwHardeningNeeded => RAW_CONFIG_AND_SW_HARDENING_NEEDED,
            QvResultCode::InvalidSignature => RAW_INVALID_SIGNATURE,
            QvResultCode::Revoked => RAW_REVOKED,
            QvResultCode::Unspecified => RAW_UNSPECIFIED,
            QvResultCode::Unrecognized(raw) => raw,
        }
    }

    /// The documented name of this code, for reports and audit trails.
    pub fn name(&self) -> (name: &'static str)
        ensures
            name@ == spec_code_name(*self),
    {
        match *self {
            QvResultCode::Passed => "OK",
            QvResultCode::ConfigNeeded => "CONFIG_NEEDED",
            QvResultCode::OutOfDate => "OUT_OF_DATE",
            QvResultCode::OutOfDateConfigNeeded => "OUT_OF_DATE_CONFIG_NEEDED",
            QvResultCode::SwHardeningNeeded => "SW_HARDENING_NEEDED",
            QvResultCode::ConfigAndSwHardeningNeeded => "CONFIG_AND_SW_HARDENING_NEEDED",
            QvResultCode::InvalidSignature => "INVALID_SIGNATURE",
            QvResultCode::Revoked => "REVOKED",
            QvResultCode::Unspecified => "UNSPECIFIED",
            QvResultCode::Unrecognized(_) => "UNRECOGNIZED",
        }
    }
}

/// The documented name of a result code.
pub open spec fn spec_code_name(code: QvResultCode) -> Seq<char> {
    match code {
        QvResultCode::Passed => "OK"@,
        QvResultCode::ConfigNeeded => "CONFIG_NEEDED"@,
        QvResultCode::OutOfDate => "OUT_OF_DATE"@,
        QvResultCode::OutOfDateConfigNeeded => "OUT_OF_DATE_CONFIG_NEEDED"@,
        QvResultCode::SwHardeningNeeded => "SW_HARDENING_NEEDED"@,
        QvResultCode::ConfigAndSwHardeningNeeded => "CONFIG_AND_SW_HARDENING_NEEDED"@,
        QvResultCode::InvalidSignature => "INVALID_SIGNATURE"@,
        QvResultCode::Revoked => "REVOKED"@,
        QvResultCode::Unspecified => "UNSPECIFIED"@,
        QvResultCode::Unrecognized(_) => "UNRECOGNIZED"@,
    }
}

/// Decoding a code's raw value gives the code back: the decoding loses
/// nothing, as long as `Unrecognized` carries only undocumented values.
pub proof fn lemma_code_raw_round_trip(code: QvResultCode)
    requires
        code.well_formed(),
    ensures
        spec_code_of_raw(spec_raw_of_code(code)) == code,
{
}

/// Every decoded code is either the clean pass, a non-terminal warning, or
/// terminal — exactly one of the three.
pub proof fn lemma_code_tiers_exclusive(code: QvResultCode)
    ensures
        code is Passed || code.is_warning() || code.is_terminal(),
        !(code is Passed && code.is_warning()),
        !(code is Passed && code.is_terminal()),
        !(code.is_warning() && code.is_terminal()),
{
}

} // verus!
