//! The data shapes of the layered derivation: what a layer receives from
//! its predecessor and what it hands to its successor.
//!
//! The derivation is a chain, not a tree: the output of layer N becomes,
//! field for field, the parent portion of the input of layer N+1. The
//! constructor `DiceInput::from_output` is that projection, and its
//! contract states the chaining law.

use vstd::prelude::*;

use crate::crypto::{copy_bytes, Ecc384KeyPair};
use crate::key_vault::KeyId;

verus! {

/// The material a layer receives from its predecessor. Immutable for the
/// duration of one derivation; consumed once per layer activation.
pub struct DiceInput {
    /// The slot holding the inherited secret keying this layer's
    /// derivation.
    pub cdi: KeyId,
    /// The slot that receives this layer's derived private key.
    pub subj_priv_key: KeyId,
    /// The parent's key pair: authority private-key slot and public key.
    pub auth_key_pair: Ecc384KeyPair,
    /// The parent's subject serial number, 64 hex characters.
    pub auth_sn: Vec<u8>,
    /// The parent's subject key identifier, 20 bytes.
    pub auth_key_id: Vec<u8>,
    /// The chain-root secret reference.
    pub uds_key: KeyId,
}

/// The identity a layer hands forward: its derived key pair and the naming
/// material the next layer uses as its parent identity.
pub struct DiceOutput {
    /// This layer's derived key pair.
    pub subj_key_pair: Ecc384KeyPair,
    /// This layer's subject serial number, 64 hex characters.
    pub subj_sn: Vec<u8>,
    /// This layer's subject key identifier, 20 bytes.
    pub subj_key_id: Vec<u8>,
}

/// The output of layer N, projected into the parent fields of the input of
/// layer N+1, reproduces all four parent fields: the authority key-pair
/// slot, the public key bytes, the subject serial number, and the subject
/// key identifier.
pub open spec fn parent_fields_match(input: DiceInput, output: DiceOutput) -> bool {
    &&& input.auth_key_pair.priv_key == output.subj_key_pair.priv_key
    &&& input.auth_key_pair.pub_key.x@ == output.subj_key_pair.pub_key.x@
    &&& input.auth_key_pair.pub_key.y@ == output.subj_key_pair.pub_key.y@
    &&& input.auth_sn@ == output.subj_sn@
    &&& input.auth_key_id@ == output.subj_key_id@
}

impl DiceInput {
    /// The shapes are full width and the three slots are pairwise
    /// distinct, per the inter-stage slot convention.
    pub open spec fn wf(self) -> bool {
        &&& self.auth_key_pair.pub_key.wf()
        &&& self.auth_sn@.len() == 64
        &&& self.auth_key_id@.len() == 20
        &&& self.cdi != self.subj_priv_key
        &&& self.auth_key_pair.priv_key != self.cdi
        &&& self.auth_key_pair.priv_key != self.subj_priv_key
    }

    /// Assemble the output this layer hands forward: its key pair and
    /// names become the next layer's parent identity.
    pub fn to_output(&self, key_pair: Ecc384KeyPair, subj_sn: Vec<u8>, subj_key_id: Vec<u8>) -> (r:
        DiceOutput)
        ensures
            r.subj_key_pair.priv_key == key_pair.priv_key,
            r.subj_key_pair.pub_key.x@ == key_pair.pub_key.x@,
            r.subj_key_pair.pub_key.y@ == key_pair.pub_key.y@,
            r.subj_sn@ == subj_sn@,
            r.subj_key_id@ == subj_key_id@,
    {
        DiceOutput { subj_key_pair: key_pair, subj_sn, subj_key_id }
    }

    /// The chaining projection: build the input of layer N+1 from the
    /// output of layer N. The parent fields of the result are the output's
    /// fields, unchanged.
    pub fn from_output(parent: &DiceOutput, cdi: KeyId, subj_priv_key: KeyId, uds_key: KeyId) -> (r:
        DiceInput)
        requires
            parent.wf(),
            cdi != subj_priv_key,
            parent.subj_key_pair.priv_key != cdi,
            parent.subj_key_pair.priv_key != subj_priv_key,
        ensures
            r.wf(),
            parent_fields_match(r, *parent),
            r.cdi == cdi,
            r.subj_priv_key == subj_priv_key,
            r.uds_key == uds_key,
    {
        DiceInput {
            cdi,
            subj_priv_key,
            auth_key_pair: Ecc384KeyPair {
                priv_key: parent.subj_key_pair.priv_key,
                pub_key: parent.subj_key_pair.pub_key.clone_key(),
            },
            auth_sn: copy_bytes(&parent.subj_sn),
            auth_key_id: copy_bytes(&parent.subj_key_id),
            uds_key,
        }
    }
}

impl DiceOutput {
    /// The shapes are full width: a well-formed public key, a 64-character
    /// serial number, a 20-byte key identifier.
    pub open spec fn wf(self) -> bool {
        &&& self.subj_key_pair.pub_key.wf()
        &&& self.subj_sn@.len() == 64
        &&& self.subj_key_id@.len() == 20
    }

}

} // verus!
