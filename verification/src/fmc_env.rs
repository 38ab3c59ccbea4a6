//! The environment handle of the stage: the capability bundle through which
//! every operation reaches the protected key store, the measurement
//! registers, and the latched reset reason.
//!
//! The bundle is passed explicitly into every operation — never held in a
//! global — so a caller can substitute a freshly staged environment and
//! every derivation remains a function of the state it is handed.

use vstd::prelude::*;

use crate::key_vault::KeyVault;
use crate::pcr_bank::PcrBank;

verus! {

/// The reset reason latched by the hardware and read once per boot. It
/// selects the continuation flow and is never mutated by this stage.
#[derive(Clone, Copy, PartialEq, Eq, Structural, Debug)]
pub enum ResetReason {
    /// Power-on: measurement and identity start from scratch.
    ColdReset,
    /// The journey register and the persisted chain state survive.
    WarmReset,
    /// Like a warm reset, but the next-stage image has changed.
    UpdateReset,
    /// A spurious or unrecognized reset: not a trusted state.
    Unknown,
}

/// The capability bundle handed to every operation of the stage.
pub struct FmcEnv {
    /// The protected key store.
    pub key_vault: KeyVault,
    /// The measurement-register pair.
    pub pcr_bank: PcrBank,
    /// The latched reset reason.
    pub reset_reason: ResetReason,
}

impl FmcEnv {
    /// Both hardware banks are well formed.
    pub open spec fn wf(self) -> bool {
        self.key_vault.wf() && self.pcr_bank.wf()
    }

    /// An environment as a true cold boot leaves it: every key slot
    /// empty, both measurement registers cleared.
    pub fn new(reset_reason: ResetReason) -> (r: FmcEnv)
        ensures
            r.wf(),
            r.reset_reason == reset_reason,
            forall|id: crate::key_vault::KeyId| !(#[trigger] r.key_vault.occupied(id)),
            r.pcr_bank.pcr0_value() == Seq::new(48, |i: int| 0u8),
            r.pcr_bank.pcr1_value() == Seq::new(48, |i: int| 0u8),
    {
        FmcEnv { key_vault: KeyVault::new(), pcr_bank: PcrBank::new(), reset_reason }
    }

    /// The latched reset reason.
    pub fn reset_reason(&self) -> (r: ResetReason)
        ensures
            r == self.reset_reason,
    {
        self.reset_reason
    }
}

} // verus!
