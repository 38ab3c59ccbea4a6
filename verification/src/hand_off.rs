//! The hand-off record the previous boot stage leaves behind: the slots of
//! the inherited secret and of this stage's private key, the entry point of
//! the next stage, and the measurement evidence for this boot cycle.
//!
//! The record is read-only for the whole stage. Slot numbering is a
//! convention agreed between adjacent stages: the parent's authority key
//! sits in its own fixed slot, distinct from the two slots the record
//! names.

use vstd::prelude::*;

use crate::crypto::copy_bytes;
use crate::key_vault::KeyId;

verus! {

/// The fixed slot holding the parent's authority private key, by the
/// inter-stage convention.
pub open spec fn spec_parent_auth_slot() -> KeyId {
    KeyId::KeyId5
}

/// The fixed slot holding the parent's authority private key.
pub fn parent_auth_slot() -> (r: KeyId)
    ensures
        r == spec_parent_auth_slot(),
{
    KeyId::KeyId5
}

/// The boundary record passed from the previous stage.
pub struct HandOff {
    /// The slot holding the inherited secret of this layer.
    pub fmc_cdi: KeyId,
    /// The slot that receives this layer's derived private key.
    pub fmc_priv_key: KeyId,
    /// Where the next stage begins executing.
    pub rt_entry_point: u32,
    /// The measurement evidence of this boot cycle.
    pub measurement: Vec<u8>,
}

impl HandOff {
    /// The slot convention: the inherited secret, the derived key's
    /// destination, and the parent authority slot are three distinct
    /// slots.
    pub open spec fn wf(self) -> bool {
        &&& self.fmc_cdi != self.fmc_priv_key
        &&& self.fmc_cdi != spec_parent_auth_slot()
        &&& self.fmc_priv_key != spec_parent_auth_slot()
    }

    /// A record naming the given slots, entry point and measurement.
    pub fn new(fmc_cdi: KeyId, fmc_priv_key: KeyId, rt_entry_point: u32, measurement: Vec<u8>) -> (r:
        HandOff)
        requires
            fmc_cdi != fmc_priv_key,
            fmc_cdi != spec_parent_auth_slot(),
            fmc_priv_key != spec_parent_auth_slot(),
        ensures
            r.wf(),
            r.fmc_cdi == fmc_cdi,
            r.fmc_priv_key == fmc_priv_key,
            r.rt_entry_point == rt_entry_point,
            r.measurement@ == measurement@,
    {
        HandOff { fmc_cdi, fmc_priv_key, rt_entry_point, measurement }
    }

    /// The slot holding the inherited secret.
    pub fn fmc_cdi(&self) -> (r: KeyId)
        ensures
            r == self.fmc_cdi,
    {
        self.fmc_cdi
    }

    /// The slot that receives this layer's derived private key.
    pub fn fmc_priv_key(&self) -> (r: KeyId)
        ensures
            r == self.fmc_priv_key,
    {
        self.fmc_priv_key
    }

    /// Where the next stage begins executing.
    pub fn rt_entry_point(&self) -> (r: u32)
        ensures
            r == self.rt_entry_point,
    {
        self.rt_entry_point
    }

    /// A copy of the measurement evidence.
    pub fn measurement(&self) -> (r: Vec<u8>)
        ensures
            r@ == self.measurement@,
    {
        copy_bytes(&self.measurement)
    }
}

} // verus!
