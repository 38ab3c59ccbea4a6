//! The protected key store: a fixed bank of slots addressed by handle, each
//! holding 48 bytes of secret material under a set of usage flags fixed at
//! write time.
//!
//! Secret bytes never cross the module boundary except through `read_key`,
//! which checks the requested capability against the stored flags: a slot
//! written under flags `{A}` refuses any read that demands a flag outside
//! `{A}`, and an empty slot refuses every read. Erase is idempotent and
//! succeeds on a slot that was never written.

use vstd::prelude::*;

use crate::crypto::copy_bytes;
use crate::error::FmcError;

verus! {

/// A handle naming one slot of the protected store. Slot numbering is a
/// convention agreed with the adjacent boot stages.
#[derive(Clone, Copy, PartialEq, Eq, Structural, Debug)]
pub enum KeyId {
    KeyId0,
    KeyId1,
    KeyId2,
    KeyId3,
    KeyId4,
    KeyId5,
    KeyId6,
    KeyId7,
}

/// The position of the slot that `id` names.
pub open spec fn key_index(id: KeyId) -> int {
    match id {
        KeyId::KeyId0 => 0,
        KeyId::KeyId1 => 1,
        KeyId::KeyId2 => 2,
        KeyId::KeyId3 => 3,
        KeyId::KeyId4 => 4,
        KeyId::KeyId5 => 5,
        KeyId::KeyId6 => 6,
        KeyId::KeyId7 => 7,
    }
}

/// The capability flags attached to a slot when it is written.
#[derive(Clone, Copy, PartialEq, Eq, Structural, Debug)]
pub struct KeyUsage {
    /// The slot may key a MAC.
    pub hmac_key: bool,
    /// The slot may seed asymmetric key-pair generation.
    pub ecc_key_gen_seed: bool,
    /// The slot holds an asymmetric private key.
    pub ecc_private_key: bool,
}

impl KeyUsage {
    /// No capability at all: the flags of a fresh or erased slot.
    pub open spec fn spec_none() -> KeyUsage {
        KeyUsage { hmac_key: false, ecc_key_gen_seed: false, ecc_private_key: false }
    }

    /// The single capability a MAC-key read demands.
    pub open spec fn spec_hmac_key() -> KeyUsage {
        KeyUsage { hmac_key: true, ecc_key_gen_seed: false, ecc_private_key: false }
    }

    /// The single capability a key-generation-seed read demands.
    pub open spec fn spec_key_gen_seed() -> KeyUsage {
        KeyUsage { hmac_key: false, ecc_key_gen_seed: true, ecc_private_key: false }
    }

    /// The flags of a slot holding an asymmetric private key.
    pub open spec fn spec_private_key() -> KeyUsage {
        KeyUsage { hmac_key: false, ecc_key_gen_seed: false, ecc_private_key: true }
    }

    /// The flags of a freshly derived layer secret: usable both as the next
    /// MAC key and as a key-generation seed.
    pub open spec fn spec_derived_secret() -> KeyUsage {
        KeyUsage { hmac_key: true, ecc_key_gen_seed: true, ecc_private_key: false }
    }

    /// Allow or withdraw use as a MAC key.
    pub fn set_hmac_key(&mut self, value: bool)
        ensures
            *final(self) == (KeyUsage { hmac_key: value, ..*old(self) }),
    {
        self.hmac_key = value;
    }

    /// Allow or withdraw use as a key-generation seed.
    pub fn set_ecc_key_gen_seed(&mut self, value: bool)
        ensures
            *final(self) == (KeyUsage { ecc_key_gen_seed: value, ..*old(self) }),
    {
        self.ecc_key_gen_seed = value;
    }

    /// Allow or withdraw use as an asymmetric private key.
    pub fn set_ecc_private_key(&mut self, value: bool)
        ensures
            *final(self) == (KeyUsage { ecc_private_key: value, ..*old(self) }),
    {
        self.ecc_private_key = value;
    }
}

impl Default for KeyUsage {
    /// A flag set granting nothing.
    fn default() -> (r: KeyUsage)
        ensures
            r == KeyUsage::spec_none(),
    {
        KeyUsage { hmac_key: false, ecc_key_gen_seed: false, ecc_private_key: false }
    }
}

/// Whether stored flags `stored` grant every capability that `requested`
/// demands.
pub open spec fn usage_allows(stored: KeyUsage, requested: KeyUsage) -> bool {
    &&& (requested.hmac_key ==> stored.hmac_key)
    &&& (requested.ecc_key_gen_seed ==> stored.ecc_key_gen_seed)
    &&& (requested.ecc_private_key ==> stored.ecc_private_key)
}

/// One slot of the store.
struct KvSlot {
    occupied: bool,
    usage: KeyUsage,
    value: Vec<u8>,
}

/// The protected key store.
pub struct KeyVault {
    slots: Vec<KvSlot>,
}

impl KeyVault {
    /// The bank has its full complement of slots, each of full width.
    pub closed spec fn wf(self) -> bool {
        &&& self.slots@.len() == 8
        &&& forall|i: int| 0 <= i < 8 ==> (#[trigger] self.slots@[i]).value@.len() == 48
    }

    /// Whether the slot named by `id` holds material.
    pub closed spec fn occupied(self, id: KeyId) -> bool {
        self.slots@[key_index(id)].occupied
    }

    /// The usage flags stored with the slot named by `id`.
    pub closed spec fn usage(self, id: KeyId) -> KeyUsage {
        self.slots@[key_index(id)].usage
    }

    /// The bytes stored in the slot named by `id`.
    pub closed spec fn value(self, id: KeyId) -> Seq<u8> {
        self.slots@[key_index(id)].value@
    }

    /// The two stores agree on the slot named by `id`.
    pub open spec fn slot_eq(self, other: KeyVault, id: KeyId) -> bool {
        &&& self.occupied(id) == other.occupied(id)
        &&& self.usage(id) == other.usage(id)
        &&& self.value(id) == other.value(id)
    }

    /// A read of slot `id` under `requested` succeeds: the slot is
    /// occupied and its flags grant everything demanded.
    pub open spec fn readable(self, id: KeyId, requested: KeyUsage) -> bool {
        self.occupied(id) && usage_allows(self.usage(id), requested)
    }

    /// A store with every slot empty.
    pub fn new() -> (r: KeyVault)
        ensures
            r.wf(),
            forall|id: KeyId| !(#[trigger] r.occupied(id)),
            forall|id: KeyId| #[trigger] r.usage(id) == KeyUsage::spec_none(),
            forall|id: KeyId| #[trigger] r.value(id) == Seq::new(48, |i: int| 0u8),
    {
        let mut slots: Vec<KvSlot> = Vec::new();
        let mut i: usize = 0;
        while i < 8
            invariant
                slots@.len() == i,
                i <= 8,
                forall|k: int|
                    0 <= k < i ==> {
                        &&& !(#[trigger] slots@[k]).occupied
                        &&& slots@[k].usage == KeyUsage::spec_none()
                        &&& slots@[k].value@ == Seq::new(48, |j: int| 0u8)
                    },
            decreases 8 - i,
        {
            slots.push(
                KvSlot {
                    occupied: false,
                    usage: KeyUsage { hmac_key: false, ecc_key_gen_seed: false, ecc_private_key: false },
                    value: crate::crypto::zero_bytes(48),
                },
            );
            i = i + 1;
        }
        KeyVault { slots }
    }

    /// Write `value` into the slot named by `id` under the flags `usage`.
    /// Every later read of the slot is gated by exactly these flags.
    pub fn write_key(&mut self, id: KeyId, value: Vec<u8>, usage: KeyUsage)
        requires
            old(self).wf(),
            value@.len() == 48,
        ensures
            final(self).wf(),
            final(self).occupied(id),
            final(self).usage(id) == usage,
            final(self).value(id) == value@,
            forall|k: KeyId| k != id ==> final(self).slot_eq(*old(self), k),
    {
        let i = Self::index_of(id);
        self.slots[i] = KvSlot { occupied: true, usage, value };
        proof {
            assert(forall|k: KeyId| k != id ==> key_index(k) != key_index(id));
        }
    }

    /// Read the slot named by `id` under the demanded capability
    /// `requested`. An empty slot, or stored flags that do not grant
    /// every demanded flag, refuse the read.
    pub fn read_key(&self, id: KeyId, requested: KeyUsage) -> (r: Result<Vec<u8>, FmcError>)
        requires
            self.wf(),
        ensures
            self.readable(id, requested) ==> (r matches Ok(v) && v@ == self.value(id)
                && v@.len() == 48),
            !self.readable(id, requested) ==> r == Err::<Vec<u8>, FmcError>(
                FmcError::CapabilityMismatch,
            ),
    {
        let i = Self::index_of(id);
        let slot = &self.slots[i];
        let grants = (!requested.hmac_key || slot.usage.hmac_key) && (!requested.ecc_key_gen_seed
            || slot.usage.ecc_key_gen_seed) && (!requested.ecc_private_key
            || slot.usage.ecc_private_key);
        if slot.occupied && grants {
            Ok(copy_bytes(&slot.value))
        } else {
            Err(FmcError::CapabilityMismatch)
        }
    }

    /// Empty the slot named by `id`, withdrawing every capability. A slot
    /// that was never written is left empty all the same.
    pub fn erase_key(&mut self, id: KeyId)
        requires
            old(self).wf(),
        ensures
            final(self).wf(),
            !final(self).occupied(id),
            final(self).usage(id) == KeyUsage::spec_none(),
            final(self).value(id) == Seq::new(48, |i: int| 0u8),
            forall|k: KeyId| k != id ==> final(self).slot_eq(*old(self), k),
    {
        let i = Self::index_of(id);
        self.slots[i] = KvSlot {
            occupied: false,
            usage: KeyUsage { hmac_key: false, ecc_key_gen_seed: false, ecc_private_key: false },
            value: crate::crypto::zero_bytes(48),
        };
        proof {
            assert(forall|k: KeyId| k != id ==> key_index(k) != key_index(id));
        }
    }

    /// Every slot of a well-formed store holds a full-width value.
    pub proof fn lemma_value_len(self, id: KeyId)
        requires
            self.wf(),
        ensures
            self.value(id).len() == 48,
    {
    }

    /// The slot position for `id`.
    fn index_of(id: KeyId) -> (i: usize)
        ensures
            i == key_index(id),
    {
        match id {
            KeyId::KeyId0 => 0,
            KeyId::KeyId1 => 1,
            KeyId::KeyId2 => 2,
            KeyId::KeyId3 => 3,
            KeyId::KeyId4 => 4,
            KeyId::KeyId5 => 5,
            KeyId::KeyId6 => 6,
            KeyId::KeyId7 => 7,
        }
    }
}

} // verus!
