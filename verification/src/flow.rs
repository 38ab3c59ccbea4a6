//! The reset-reason dispatch: exactly one of four continuation flows runs
//! per boot, selected by the latched hardware reset reason.
//!
//! A cold reset runs the canonical full derivation over freshly cleared
//! registers. A warm reset keeps the persisted journey register and
//! re-extends only the current-cycle register before re-running the
//! derivation — derivation is deterministic, so re-running with the same
//! inputs reproduces the same identity. An update reset does the same
//! with evidence that reflects the changed next-stage image. An unknown
//! reset is not a trusted state for minting identity: no derivation runs
//! and the stage reports and halts.

use vstd::prelude::*;

use crate::crypto::mac384_spec;
use crate::dice::DiceOutput;
use crate::error::FmcError;
use crate::fmc_env::{FmcEnv, ResetReason};
use crate::hand_off::HandOff;
use crate::rt_alias::{run_post, RtAliasLayer};

verus! {

/// The flow the dispatcher selects; the observable hook for checking that
/// each reset reason routes to exactly its own flow.
#[derive(Clone, Copy, PartialEq, Eq, Structural, Debug)]
pub enum SelectedFlow {
    Cold,
    Warm,
    Update,
    Unknown,
}

/// The flow each reset reason selects. The mapping is total: every value
/// outside the three recognized resets routes to the unknown flow.
pub open spec fn spec_flow_for(reason: ResetReason) -> SelectedFlow {
    match reason {
        ResetReason::ColdReset => SelectedFlow::Cold,
        ResetReason::WarmReset => SelectedFlow::Warm,
        ResetReason::UpdateReset => SelectedFlow::Update,
        ResetReason::Unknown => SelectedFlow::Unknown,
    }
}

/// Select the continuation flow for `reason`.
pub fn select_flow(reason: ResetReason) -> (r: SelectedFlow)
    ensures
        r == spec_flow_for(reason),
{
    match reason {
        ResetReason::ColdReset => SelectedFlow::Cold,
        ResetReason::WarmReset => SelectedFlow::Warm,
        ResetReason::UpdateReset => SelectedFlow::Update,
        ResetReason::Unknown => SelectedFlow::Unknown,
    }
}

/// The cold-reset flow: the canonical full derivation, with no
/// shortcuts, over registers the hardware cleared at power-on.
pub struct ColdResetFlow;

impl ColdResetFlow {
    /// Extend both registers with the hand-off evidence and run the full
    /// layer derivation.
    pub fn run(env: &mut FmcEnv, hand_off: &HandOff) -> (r: Result<DiceOutput, FmcError>)
        requires
            old(env).wf(),
            hand_off.wf(),
        ensures
            final(env).wf(),
            final(env).reset_reason == old(env).reset_reason,
            final(env).pcr_bank.pcr0_value() == mac384_spec(
                old(env).pcr_bank.pcr0_value(),
                hand_off.measurement@,
            ),
            final(env).pcr_bank.pcr1_value() == mac384_spec(
                old(env).pcr_bank.pcr1_value(),
                hand_off.measurement@,
            ),
            run_post(
                old(env).key_vault,
                mac384_spec(old(env).pcr_bank.pcr0_value(), hand_off.measurement@),
                mac384_spec(old(env).pcr_bank.pcr1_value(), hand_off.measurement@),
                *hand_off,
                r,
                final(env).key_vault,
            ),
    {
        RtAliasLayer::run(env, hand_off)
    }
}

/// The warm-reset flow: the journey register persisted through the
/// reset and already holds this boot's evidence; only the current-cycle
/// register, which the hardware cleared, is re-extended before the full
/// derivation is re-run.
pub struct WarmResetFlow;

impl WarmResetFlow {
    /// Re-extend the current-cycle register and re-run the layer
    /// derivation against the persisted journey register.
    pub fn run(env: &mut FmcEnv, hand_off: &HandOff) -> (r: Result<DiceOutput, FmcError>)
        requires
            old(env).wf(),
            hand_off.wf(),
        ensures
            final(env).wf(),
            final(env).reset_reason == old(env).reset_reason,
            final(env).pcr_bank.pcr0_value() == old(env).pcr_bank.pcr0_value(),
            final(env).pcr_bank.pcr1_value() == mac384_spec(
                old(env).pcr_bank.pcr1_value(),
                hand_off.measurement@,
            ),
            run_post(
                old(env).key_vault,
                old(env).pcr_bank.pcr0_value(),
                mac384_spec(old(env).pcr_bank.pcr1_value(), hand_off.measurement@),
                *hand_off,
                r,
                final(env).key_vault,
            ),
    {
        match crate::pcr_bank::extend_pcr1(env, hand_off) {
            Ok(()) => {},
            Err(e) => {
                return Err(e);
            },
        }
        let input = match RtAliasLayer::dice_input_from_hand_off(env, hand_off) {
            Ok(i) => i,
            Err(e) => {
                return Err(e);
            },
        };
        RtAliasLayer::derive(env, &input)
    }
}

/// The update-reset flow: like a warm reset, but the next-stage image
/// changed, so the hand-off evidence — and with it the re-extended
/// current-cycle register — reflects the new image's measurement before
/// the derivation is re-run.
pub struct UpdateResetFlow;

impl UpdateResetFlow {
    /// Re-extend the current-cycle register with the new image's
    /// evidence and re-run the layer derivation.
    pub fn run(env: &mut FmcEnv, hand_off: &HandOff) -> (r: Result<DiceOutput, FmcError>)
        requires
            old(env).wf(),
            hand_off.wf(),
        ensures
            final(env).wf(),
            final(env).reset_reason == old(env).reset_reason,
            final(env).pcr_bank.pcr0_value() == old(env).pcr_bank.pcr0_value(),
            final(env).pcr_bank.pcr1_value() == mac384_spec(
                old(env).pcr_bank.pcr1_value(),
                hand_off.measurement@,
            ),
            run_post(
                old(env).key_vault,
                old(env).pcr_bank.pcr0_value(),
                mac384_spec(old(env).pcr_bank.pcr1_value(), hand_off.measurement@),
                *hand_off,
                r,
                final(env).key_vault,
            ),
    {
        match crate::pcr_bank::extend_pcr1(env, hand_off) {
            Ok(()) => {},
            Err(e) => {
                return Err(e);
            },
        }
        let input = match RtAliasLayer::dice_input_from_hand_off(env, hand_off) {
            Ok(i) => i,
            Err(e) => {
                return Err(e);
            },
        };
        RtAliasLayer::derive(env, &input)
    }
}

/// The unknown-reset flow: an unidentified reset reason is not a trusted
/// state, so no derivation is attempted and nothing in the environment
/// changes; the caller reports the non-fatal code and halts.
pub struct UnknownResetFlow;

impl UnknownResetFlow {
    /// Refuse to derive: report the unknown reset reason.
    pub fn run(env: &mut FmcEnv, _hand_off: &HandOff) -> (r: Result<DiceOutput, FmcError>)
        requires
            old(env).wf(),
        ensures
            final(env).wf(),
            *final(env) == *old(env),
            r == Err::<DiceOutput, FmcError>(FmcError::UnknownResetReason),
    {
        Err(FmcError::UnknownResetReason)
    }
}

/// Execute the flow the latched reset reason selects. The four flows are
/// mutually exclusive and exhaustive over the reset-reason domain;
/// exactly one runs per boot. On the unknown path the environment is
/// untouched and no derivation is invoked.
pub fn run(env: &mut FmcEnv, hand_off: &HandOff) -> (r: Result<DiceOutput, FmcError>)
    requires
        old(env).wf(),
        hand_off.wf(),
    ensures
        final(env).wf(),
        final(env).reset_reason == old(env).reset_reason,
        spec_flow_for(old(env).reset_reason) == SelectedFlow::Cold ==> {
            &&& final(env).pcr_bank.pcr0_value() == mac384_spec(
                old(env).pcr_bank.pcr0_value(),
                hand_off.measurement@,
            )
            &&& final(env).pcr_bank.pcr1_value() == mac384_spec(
                old(env).pcr_bank.pcr1_value(),
                hand_off.measurement@,
            )
            &&& run_post(
                old(env).key_vault,
                mac384_spec(old(env).pcr_bank.pcr0_value(), hand_off.measurement@),
                mac384_spec(old(env).pcr_bank.pcr1_value(), hand_off.measurement@),
                *hand_off,
                r,
                final(env).key_vault,
            )
        },
        spec_flow_for(old(env).reset_reason) == SelectedFlow::Warm || spec_flow_for(
            old(env).reset_reason,
        ) == SelectedFlow::Update ==> {
            &&& final(env).pcr_bank.pcr0_value() == old(env).pcr_bank.pcr0_value()
            &&& final(env).pcr_bank.pcr1_value() == mac384_spec(
                old(env).pcr_bank.pcr1_value(),
                hand_off.measurement@,
            )
            &&& run_post(
                old(env).key_vault,
                old(env).pcr_bank.pcr0_value(),
                mac384_spec(old(env).pcr_bank.pcr1_value(), hand_off.measurement@),
                *hand_off,
                r,
                final(env).key_vault,
            )
        },
        spec_flow_for(old(env).reset_reason) == SelectedFlow::Unknown ==> *final(env) == *old(env)
            && r == Err::<DiceOutput, FmcError>(FmcError::UnknownResetReason),
{
    let reason = env.reset_reason();
    match select_flow(reason) {
        SelectedFlow::Cold => ColdResetFlow::run(env, hand_off),
        SelectedFlow::Warm => WarmResetFlow::run(env, hand_off),
        SelectedFlow::Update => UpdateResetFlow::run(env, hand_off),
        SelectedFlow::Unknown => UnknownResetFlow::run(env, hand_off),
    }
}

} // verus!
