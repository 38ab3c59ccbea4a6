//! The measurement-register pair.
//!
//! Register 0 is the journey register: the hardware clears it only on a
//! true cold reset, so it accumulates evidence across reset cycles.
//! Register 1 is the current-cycle register: the hardware clears it on
//! every reset and the stage re-extends it with this cycle's evidence.
//! Extension is cumulative — the new value mixes the old register value
//! with the measurement — never a plain overwrite.

use vstd::prelude::*;

use crate::crypto::{copy_bytes, mac384_spec, mix48, zero_bytes};
use crate::error::FmcError;
use crate::fmc_env::FmcEnv;
use crate::hand_off::HandOff;

verus! {

/// The name of one measurement register.
#[derive(Clone, Copy, PartialEq, Eq, Structural, Debug)]
pub enum PcrId {
    /// The journey register, cleared only on a true cold reset.
    PcrId0,
    /// The current-cycle register, cleared on every reset.
    PcrId1,
}

/// The two measurement registers.
pub struct PcrBank {
    pcr0: Vec<u8>,
    pcr1: Vec<u8>,
}

impl PcrBank {
    /// Both registers have their full width.
    pub closed spec fn wf(self) -> bool {
        self.pcr0@.len() == 48 && self.pcr1@.len() == 48
    }

    /// The value of the journey register.
    pub closed spec fn pcr0_value(self) -> Seq<u8> {
        self.pcr0@
    }

    /// The value of the current-cycle register.
    pub closed spec fn pcr1_value(self) -> Seq<u8> {
        self.pcr1@
    }

    /// The value of the register named by `id`.
    pub open spec fn pcr_value(self, id: PcrId) -> Seq<u8> {
        match id {
            PcrId::PcrId0 => self.pcr0_value(),
            PcrId::PcrId1 => self.pcr1_value(),
        }
    }

    /// A bank with both registers cleared, as the hardware leaves them on
    /// a true cold reset.
    pub fn new() -> (r: PcrBank)
        ensures
            r.wf(),
            r.pcr0_value() == Seq::new(48, |i: int| 0u8),
            r.pcr1_value() == Seq::new(48, |i: int| 0u8),
    {
        PcrBank { pcr0: zero_bytes(48), pcr1: zero_bytes(48) }
    }

    /// Read the register named by `id`.
    pub fn read_pcr(&self, id: PcrId) -> (r: Vec<u8>)
        requires
            self.wf(),
        ensures
            r@ == self.pcr_value(id),
            r@.len() == 48,
    {
        match id {
            PcrId::PcrId0 => copy_bytes(&self.pcr0),
            PcrId::PcrId1 => copy_bytes(&self.pcr1),
        }
    }

    /// Fold the measurement `data` into the register named by `id`
    /// through the cumulative extension primitive.
    pub fn extend_pcr(&mut self, id: PcrId, data: &Vec<u8>)
        requires
            old(self).wf(),
        ensures
            final(self).wf(),
            final(self).pcr_value(id) == mac384_spec(old(self).pcr_value(id), data@),
            id != PcrId::PcrId0 ==> final(self).pcr0_value() == old(self).pcr0_value(),
            id != PcrId::PcrId1 ==> final(self).pcr1_value() == old(self).pcr1_value(),
    {
        match id {
            PcrId::PcrId0 => {
                self.pcr0 = mix48(&self.pcr0, data);
            },
            PcrId::PcrId1 => {
                self.pcr1 = mix48(&self.pcr1, data);
            },
        }
    }

    /// Clear the register named by `id`. The stage itself never clears a
    /// register; this is the hardware's reset action, modelled so that a
    /// caller can stage the register state a given reset kind leaves
    /// behind.
    pub fn clear_pcr(&mut self, id: PcrId)
        requires
            old(self).wf(),
        ensures
            final(self).wf(),
            final(self).pcr_value(id) == Seq::new(48, |i: int| 0u8),
            id != PcrId::PcrId0 ==> final(self).pcr0_value() == old(self).pcr0_value(),
            id != PcrId::PcrId1 ==> final(self).pcr1_value() == old(self).pcr1_value(),
    {
        match id {
            PcrId::PcrId0 => {
                self.pcr0 = zero_bytes(48);
            },
            PcrId::PcrId1 => {
                self.pcr1 = zero_bytes(48);
            },
        }
    }
}

/// Extend the journey register with the hand-off measurement evidence.
pub fn extend_pcr0(env: &mut FmcEnv, hand_off: &HandOff) -> (r: Result<(), FmcError>)
    requires
        old(env).wf(),
    ensures
        final(env).wf(),
        r is Ok,
        final(env).key_vault == old(env).key_vault,
        final(env).reset_reason == old(env).reset_reason,
        final(env).pcr_bank.pcr0_value() == mac384_spec(
            old(env).pcr_bank.pcr0_value(),
            hand_off.measurement@,
        ),
        final(env).pcr_bank.pcr1_value() == old(env).pcr_bank.pcr1_value(),
{
    env.pcr_bank.extend_pcr(PcrId::PcrId0, &hand_off.measurement);
    Ok(())
}

/// Extend the current-cycle register with the hand-off measurement
/// evidence.
pub fn extend_pcr1(env: &mut FmcEnv, hand_off: &HandOff) -> (r: Result<(), FmcError>)
    requires
        old(env).wf(),
    ensures
        final(env).wf(),
        r is Ok,
        final(env).key_vault == old(env).key_vault,
        final(env).reset_reason == old(env).reset_reason,
        final(env).pcr_bank.pcr1_value() == mac384_spec(
            old(env).pcr_bank.pcr1_value(),
            hand_off.measurement@,
        ),
        final(env).pcr_bank.pcr0_value() == old(env).pcr_bank.pcr0_value(),
{
    env.pcr_bank.extend_pcr(PcrId::PcrId1, &hand_off.measurement);
    Ok(())
}

} // verus!
