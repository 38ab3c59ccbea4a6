//! Error taxonomy of the derivation core, and the terminal actions the entry
//! glue performs when a flow cannot continue.
//!
//! Every core operation returns a `Result` with an `FmcError`; nothing in the
//! core retries or suppresses a failure. The entry glue converts an error
//! into a host-visible report followed by a halt; the conversion is the pure
//! function `halt_action_for`, so the core itself stays free of
//! non-returning calls.

use vstd::prelude::*;

verus! {

/// A failure of the derivation core.
#[derive(Clone, Copy, PartialEq, Eq, Structural, Debug)]
pub enum FmcError {
    /// A key-vault slot was used under a capability its stored usage flags
    /// do not grant, or the slot is empty.
    CapabilityMismatch,
    /// The journey and current measurement registers disagreed at the
    /// assertion point before derivation.
    MeasurementDisagreement,
    /// The underlying digest, MAC, key-generation or signing engine failed.
    /// The software model of the engine has no hardware faults, so no
    /// operation of this crate returns it; the variant completes the
    /// taxonomy for the entry glue.
    CryptoFailure,
    /// The self-check of a freshly produced certificate signature failed.
    SignatureVerificationFailure,
    /// The latched reset reason was not one of the recognized values.
    UnknownResetReason,
}

/// The numeric code reported to the host for each failure.
pub open spec fn spec_error_code(e: FmcError) -> u32 {
    match e {
        FmcError::CapabilityMismatch => 0xE001,
        FmcError::MeasurementDisagreement => 0xE002,
        FmcError::CryptoFailure => 0xE003,
        FmcError::SignatureVerificationFailure => 0xE004,
        FmcError::UnknownResetReason => 0xE005,
    }
}

/// Whether a failure claims firmware corruption. An unknown reset reason is
/// reported without such a claim; every other failure is fatal.
pub open spec fn spec_is_fatal(e: FmcError) -> bool {
    !(e is UnknownResetReason)
}

/// The numeric error code for `e`, as reported to the host.
pub fn error_code(e: FmcError) -> (r: u32)
    ensures
        r == spec_error_code(e),
{
    match e {
        FmcError::CapabilityMismatch => 0xE001,
        FmcError::MeasurementDisagreement => 0xE002,
        FmcError::CryptoFailure => 0xE003,
        FmcError::SignatureVerificationFailure => 0xE004,
        FmcError::UnknownResetReason => 0xE005,
    }
}

/// What the entry glue does once the core has returned: spin in place, or
/// first report a code to the host error channel and then spin. The core
/// never performs the action itself; it stays testable by handing the
/// decision out as a value.
#[derive(Clone, Copy, PartialEq, Eq, Structural, Debug)]
pub enum HaltAction {
    /// Stop without a host report.
    Spin,
    /// Report the code as non-fatal, then stop.
    ReportNonFatal(u32),
    /// Report the code as fatal, then stop.
    ReportFatal(u32),
}

/// The terminal action for a failed flow: an unknown reset reason is
/// signalled to the host as non-fatal, every other failure as fatal; in
/// either case no further stage is launched.
pub fn halt_action_for(e: FmcError) -> (r: HaltAction)
    ensures
        spec_is_fatal(e) ==> r == HaltAction::ReportFatal(spec_error_code(e)),
        !spec_is_fatal(e) ==> r == HaltAction::ReportNonFatal(spec_error_code(e)),
{
    let code = error_code(e);
    match e {
        FmcError::UnknownResetReason => HaltAction::ReportNonFatal(code),
        _ => HaltAction::ReportFatal(code),
    }
}

/// The terminal action of the panic path: the stage prints a marker and
/// spins without reporting a code to the host.
pub fn fmc_panic() -> (r: HaltAction)
    ensures
        r == HaltAction::Spin,
{
    HaltAction::Spin
}

} // verus!
