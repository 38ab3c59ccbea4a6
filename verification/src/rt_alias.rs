//! The DICE layer engine for the runtime-alias layer: a single-shot
//! protocol that turns the inherited secret and the measurement state into
//! this layer's identity.
//!
//! The steps, in order: assert that the two measurement registers agree;
//! derive the layer secret by MACing the current measurement under the
//! inherited secret, so the secret binds to what is running and not merely
//! to who ran before; generate the deterministic key pair from that
//! secret; name the identity from the public key; assemble the output
//! chained as the next layer's parent fields; sign the binding with the
//! parent's key, check the signature, and erase the parent's key slot —
//! the parent's authority is one-time use. Any failure is terminal for
//! this boot cycle: nothing is retried and nothing continues with an
//! unverified identity.

use vstd::prelude::*;

use crate::crypto::{
    append_bytes, copy_bytes, der_of, lemma_mac384_key_injective, mac384_spec, priv_of_seed,
    pub_x_of, pub_y_of, zero_bytes, Crypto, Ecc384KeyPair,
};
use crate::dice::{DiceInput, DiceOutput};
use crate::error::FmcError;
use crate::fmc_env::FmcEnv;
use crate::hand_off::{parent_auth_slot, spec_parent_auth_slot, HandOff};
use crate::key_vault::{KeyId, KeyUsage, KeyVault};
use crate::pcr_bank::{extend_pcr0, extend_pcr1, PcrId};
use crate::x509::{subj_key_id_spec, subj_sn_spec, X509};

verus! {

/// The inherited secret in slot `cdi` may key a MAC: the layer secret can
/// be derived.
pub open spec fn can_derive(v: KeyVault, cdi: KeyId) -> bool {
    v.readable(cdi, KeyUsage::spec_hmac_key())
}

/// Slot `id` holds a usable private key: a certificate can be signed.
pub open spec fn can_sign(v: KeyVault, id: KeyId) -> bool {
    v.readable(id, KeyUsage::spec_private_key())
}

/// The layer secret: the MAC over the measurement `uds` under the
/// inherited secret in slot `cdi` of store `v`.
pub open spec fn cdi_value(v: KeyVault, cdi: KeyId, uds: Seq<u8>) -> Seq<u8> {
    mac384_spec(v.value(cdi), uds)
}

/// The layer's private scalar, derived from the layer secret.
pub open spec fn layer_priv(v: KeyVault, cdi: KeyId, uds: Seq<u8>) -> Seq<u8> {
    priv_of_seed(cdi_value(v, cdi, uds))
}

/// The x coordinate of the layer's public key.
pub open spec fn layer_pub_x(v: KeyVault, cdi: KeyId, uds: Seq<u8>) -> Seq<u8> {
    pub_x_of(layer_priv(v, cdi, uds))
}

/// The y coordinate of the layer's public key.
pub open spec fn layer_pub_y(v: KeyVault, cdi: KeyId, uds: Seq<u8>) -> Seq<u8> {
    pub_y_of(layer_priv(v, cdi, uds))
}

/// The layer's subject serial number.
pub open spec fn layer_sn(v: KeyVault, cdi: KeyId, uds: Seq<u8>) -> Seq<u8> {
    subj_sn_spec(layer_pub_x(v, cdi, uds), layer_pub_y(v, cdi, uds))
}

/// The layer's subject key identifier.
pub open spec fn layer_key_id(v: KeyVault, cdi: KeyId, uds: Seq<u8>) -> Seq<u8> {
    subj_key_id_spec(layer_pub_x(v, cdi, uds), layer_pub_y(v, cdi, uds))
}

/// `out` is exactly the identity that store `v`, inherited-secret slot
/// `cdi`, destination slot `priv_id` and measurement `uds` determine.
pub open spec fn output_matches(
    out: DiceOutput,
    v: KeyVault,
    cdi: KeyId,
    priv_id: KeyId,
    uds: Seq<u8>,
) -> bool {
    &&& out.wf()
    &&& out.subj_key_pair.priv_key == priv_id
    &&& out.subj_key_pair.pub_key.x@ == layer_pub_x(v, cdi, uds)
    &&& out.subj_key_pair.pub_key.y@ == layer_pub_y(v, cdi, uds)
    &&& out.subj_sn@ == layer_sn(v, cdi, uds)
    &&& out.subj_key_id@ == layer_key_id(v, cdi, uds)
}

/// The store once the two derivation writes have landed: the layer secret
/// in slot `cdi` flagged for MAC-key and seed use, the private scalar in
/// slot `priv_id` flagged as a private key, every other slot untouched.
pub open spec fn writes_done(
    v0: KeyVault,
    v1: KeyVault,
    cdi: KeyId,
    priv_id: KeyId,
    uds: Seq<u8>,
) -> bool {
    &&& v1.occupied(cdi)
    &&& v1.usage(cdi) == KeyUsage::spec_derived_secret()
    &&& v1.value(cdi) == cdi_value(v0, cdi, uds)
    &&& v1.occupied(priv_id)
    &&& v1.usage(priv_id) == KeyUsage::spec_private_key()
    &&& v1.value(priv_id) == layer_priv(v0, cdi, uds)
    &&& forall|k: KeyId| k != cdi && k != priv_id ==> v1.slot_eq(v0, k)
}

/// The store after a complete layer run: the two derivation writes, the
/// parent's authority slot erased, everything else untouched.
pub open spec fn derive_complete(
    v0: KeyVault,
    v1: KeyVault,
    cdi: KeyId,
    priv_id: KeyId,
    auth: KeyId,
    uds: Seq<u8>,
) -> bool {
    &&& v1.occupied(cdi)
    &&& v1.usage(cdi) == KeyUsage::spec_derived_secret()
    &&& v1.value(cdi) == cdi_value(v0, cdi, uds)
    &&& v1.occupied(priv_id)
    &&& v1.usage(priv_id) == KeyUsage::spec_private_key()
    &&& v1.value(priv_id) == layer_priv(v0, cdi, uds)
    &&& !v1.occupied(auth)
    &&& forall|k: KeyId| k != cdi && k != priv_id && k != auth ==> v1.slot_eq(v0, k)
}

/// The public key carried in `input` is the public half of what the
/// parent's authority slot actually holds.
pub open spec fn auth_pub_matches(v: KeyVault, input: DiceInput) -> bool {
    &&& input.auth_key_pair.pub_key.x@ == pub_x_of(v.value(input.auth_key_pair.priv_key))
    &&& input.auth_key_pair.pub_key.y@ == pub_y_of(v.value(input.auth_key_pair.priv_key))
}

/// The to-be-signed bytes binding a subject identity: its serial number,
/// key identifier, and public key in DER form.
pub open spec fn tbs_spec(sn: Seq<u8>, kid: Seq<u8>, x: Seq<u8>, y: Seq<u8>) -> Seq<u8> {
    sn + kid + der_of(x, y)
}

/// Everything `derive` guarantees about its result `r` and the key store
/// it leaves behind (`v1`), in terms of the store it found (`v0`), the
/// two register values at the assertion point (`p0`, `uds`), and the
/// input. Exactly one case applies, in this order of precedence:
/// measurement disagreement, an unusable inherited secret, an unusable
/// parent authority slot, a parent public key that fails the signature
/// self-check, and full success.
pub open spec fn derive_post(
    v0: KeyVault,
    p0: Seq<u8>,
    uds: Seq<u8>,
    input: DiceInput,
    r: Result<DiceOutput, FmcError>,
    v1: KeyVault,
) -> bool {
    let cdi = input.cdi;
    let priv_id = input.subj_priv_key;
    let auth = input.auth_key_pair.priv_key;
    &&& (p0 != uds ==> r == Err::<DiceOutput, FmcError>(FmcError::MeasurementDisagreement) && v1
        == v0)
    &&& (p0 == uds && !can_derive(v0, cdi) ==> r == Err::<DiceOutput, FmcError>(
        FmcError::CapabilityMismatch,
    ) && v1 == v0)
    &&& (p0 == uds && can_derive(v0, cdi) && !can_sign(v0, auth) ==> r == Err::<
        DiceOutput,
        FmcError,
    >(FmcError::CapabilityMismatch) && writes_done(v0, v1, cdi, priv_id, uds))
    &&& (p0 == uds && can_derive(v0, cdi) && can_sign(v0, auth) && !auth_pub_matches(v0, input)
        ==> r == Err::<DiceOutput, FmcError>(FmcError::SignatureVerificationFailure)
        && writes_done(v0, v1, cdi, priv_id, uds))
    &&& (p0 == uds && can_derive(v0, cdi) && can_sign(v0, auth) && auth_pub_matches(v0, input)
        ==> (r matches Ok(out) && output_matches(out, v0, cdi, priv_id, uds)) && derive_complete(
        v0,
        v1,
        cdi,
        priv_id,
        auth,
        uds,
    ))
}

/// Everything a full layer run guarantees about its result `r` and the
/// key store it leaves behind (`v1`), in terms of the store it found
/// (`v0`), the two register values after this run's extensions (`p0`,
/// `p1`), and the hand-off record. Exactly one case applies, in this
/// order of precedence: an unusable parent authority slot, measurement
/// disagreement, an unusable inherited secret, and full success. The
/// parent public key is restated from the authority slot itself, so the
/// signature self-check cannot fail on this path.
pub open spec fn run_post(
    v0: KeyVault,
    p0: Seq<u8>,
    p1: Seq<u8>,
    ho: HandOff,
    r: Result<DiceOutput, FmcError>,
    v1: KeyVault,
) -> bool {
    let cdi = ho.fmc_cdi;
    let priv_id = ho.fmc_priv_key;
    let auth = spec_parent_auth_slot();
    &&& (!can_sign(v0, auth) ==> r == Err::<DiceOutput, FmcError>(FmcError::CapabilityMismatch)
        && v1 == v0)
    &&& (can_sign(v0, auth) && p0 != p1 ==> r == Err::<DiceOutput, FmcError>(
        FmcError::MeasurementDisagreement,
    ) && v1 == v0)
    &&& (can_sign(v0, auth) && p0 == p1 && !can_derive(v0, cdi) ==> r == Err::<
        DiceOutput,
        FmcError,
    >(FmcError::CapabilityMismatch) && v1 == v0)
    &&& (can_sign(v0, auth) && p0 == p1 && can_derive(v0, cdi) ==> (r matches Ok(out)
        && output_matches(out, v0, cdi, priv_id, p1)) && derive_complete(
        v0,
        v1,
        cdi,
        priv_id,
        auth,
        p1,
    ))
}

/// Determinism of the derivation pipeline: the derived identity is a
/// function of the inherited-secret value and the measurement value
/// alone. Two stores holding the same secret bytes under any slots, with
/// the same measurement, determine the same private scalar, public key,
/// serial number and key identifier — so re-running the derivation with
/// the same inputs reproduces the same identity.
pub proof fn lemma_derivation_deterministic(
    va: KeyVault,
    vb: KeyVault,
    cdi_a: KeyId,
    cdi_b: KeyId,
    uds: Seq<u8>,
)
    requires
        va.value(cdi_a) == vb.value(cdi_b),
    ensures
        layer_priv(va, cdi_a, uds) == layer_priv(vb, cdi_b, uds),
        layer_pub_x(va, cdi_a, uds) == layer_pub_x(vb, cdi_b, uds),
        layer_pub_y(va, cdi_a, uds) == layer_pub_y(vb, cdi_b, uds),
        layer_sn(va, cdi_a, uds) == layer_sn(vb, cdi_b, uds),
        layer_key_id(va, cdi_a, uds) == layer_key_id(vb, cdi_b, uds),
{
}

/// The corollary at the output level: two outputs that match the same
/// store, slots and measurement agree in every identity field.
pub proof fn lemma_output_deterministic(
    out1: DiceOutput,
    out2: DiceOutput,
    v: KeyVault,
    cdi: KeyId,
    priv_id: KeyId,
    uds: Seq<u8>,
)
    requires
        output_matches(out1, v, cdi, priv_id, uds),
        output_matches(out2, v, cdi, priv_id, uds),
    ensures
        out1.subj_key_pair.priv_key == out2.subj_key_pair.priv_key,
        out1.subj_key_pair.pub_key.x@ == out2.subj_key_pair.pub_key.x@,
        out1.subj_key_pair.pub_key.y@ == out2.subj_key_pair.pub_key.y@,
        out1.subj_sn@ == out2.subj_sn@,
        out1.subj_key_id@ == out2.subj_key_id@,
{
}

/// The runtime-alias DICE layer.
#[derive(Default)]
pub struct RtAliasLayer {}

impl RtAliasLayer {
    /// Perform the derivations for this layer: assert measurement
    /// agreement, derive the layer secret and key pair, name the
    /// identity, chain the output, and sign and erase the parent
    /// authority. `derive_post` states the complete outcome.
    pub fn derive(env: &mut FmcEnv, input: &DiceInput) -> (r: Result<DiceOutput, FmcError>)
        requires
            old(env).wf(),
            input.wf(),
        ensures
            final(env).wf(),
            final(env).pcr_bank == old(env).pcr_bank,
            final(env).reset_reason == old(env).reset_reason,
            derive_post(
                old(env).key_vault,
                old(env).pcr_bank.pcr0_value(),
                old(env).pcr_bank.pcr1_value(),
                *input,
                r,
                final(env).key_vault,
            ),
    {
        let ghost v0 = env.key_vault;
        let ghost uds_v = env.pcr_bank.pcr1_value();
        let uds = env.pcr_bank.read_pcr(PcrId::PcrId1);
        let p0 = env.pcr_bank.read_pcr(PcrId::PcrId0);
        if !crate::crypto::bytes_eq(&p0, &uds) {
            return Err(FmcError::MeasurementDisagreement);
        }
        let cdi = match Self::derive_cdi(env, &uds, input.cdi) {
            Ok(c) => c,
            Err(e) => {
                return Err(e);
            },
        };
        let ghost v1 = env.key_vault;
        proof {
            assert(v1.value(input.cdi) == cdi_value(v0, input.cdi, uds_v));
            assert(v1.readable(input.cdi, KeyUsage::spec_key_gen_seed()));
        }
        let key_pair = match Self::derive_key_pair(env, cdi, input.subj_priv_key) {
            Ok(kp) => kp,
            Err(e) => {
                return Err(e);
            },
        };
        let ghost v2 = env.key_vault;
        let ghost auth = input.auth_key_pair.priv_key;
        proof {
            assert(v2.slot_eq(v1, input.cdi));
            assert(v2.slot_eq(v1, auth));
            assert(v1.slot_eq(v0, auth));
            assert(v1.slot_eq(v0, input.subj_priv_key));
            assert forall|k: KeyId|
                k != input.cdi && k != input.subj_priv_key implies v2.slot_eq(v0, k) by {
                assert(v2.slot_eq(v1, k));
                assert(v1.slot_eq(v0, k));
            }
            assert(writes_done(v0, v2, input.cdi, input.subj_priv_key, uds_v));
            assert(can_sign(v2, auth) == can_sign(v0, auth));
            assert(v2.value(auth) == v0.value(auth));
            assert(key_pair.pub_key.x@ == layer_pub_x(v0, input.cdi, uds_v));
            assert(key_pair.pub_key.y@ == layer_pub_y(v0, input.cdi, uds_v));
        }
        let subj_sn = match X509::subj_sn(env, &key_pair.pub_key) {
            Ok(sn) => sn,
            Err(e) => {
                return Err(e);
            },
        };
        let subj_key_id = match X509::subj_key_id(env, &key_pair.pub_key) {
            Ok(id) => id,
            Err(e) => {
                return Err(e);
            },
        };
        let output = input.to_output(key_pair, subj_sn, subj_key_id);
        proof {
            assert(output_matches(output, v0, input.cdi, input.subj_priv_key, uds_v));
            assert(auth_pub_matches(v2, *input) == auth_pub_matches(v0, *input));
        }
        match Self::generate_cert_sig(env, input, &output) {
            Ok(()) => {},
            Err(e) => {
                proof {
                    assert(env.key_vault == v2);
                    assert(writes_done(v0, env.key_vault, input.cdi, input.subj_priv_key, uds_v));
                }
                return Err(e);
            },
        }
        proof {
            assert(!env.key_vault.occupied(auth));
            assert(env.key_vault.slot_eq(v2, input.cdi));
            assert(env.key_vault.slot_eq(v2, input.subj_priv_key));
            assert forall|k: KeyId|
                k != input.cdi && k != input.subj_priv_key && k != auth implies env.key_vault.slot_eq(
                v0,
                k,
            ) by {
                assert(env.key_vault.slot_eq(v2, k));
                assert(v2.slot_eq(v1, k));
                assert(v1.slot_eq(v0, k));
            }
            assert(derive_complete(
                v0,
                env.key_vault,
                input.cdi,
                input.subj_priv_key,
                auth,
                uds_v,
            ));
        }
        Ok(output)
    }

    /// A full layer run: extend both measurement registers with the
    /// hand-off evidence, assemble the layer input from the hand-off
    /// record, and perform the derivations. `run_post`, over the
    /// register values after the extensions, states the complete
    /// outcome.
    pub fn run(env: &mut FmcEnv, hand_off: &HandOff) -> (r: Result<DiceOutput, FmcError>)
        requires
            old(env).wf(),
            hand_off.wf(),
        ensures
            final(env).wf(),
            final(env).reset_reason == old(env).reset_reason,
            final(env).pcr_bank.pcr0_value() == mac384_spec(
                old(env).pcr_bank.pcr0_value(),
                hand_off.measurement@,
            ),
            final(env).pcr_bank.pcr1_value() == mac384_spec(
                old(env).pcr_bank.pcr1_value(),
                hand_off.measurement@,
            ),
            run_post(
                old(env).key_vault,
                mac384_spec(old(env).pcr_bank.pcr0_value(), hand_off.measurement@),
                mac384_spec(old(env).pcr_bank.pcr1_value(), hand_off.measurement@),
                *hand_off,
                r,
                final(env).key_vault,
            ),
    {
        match Self::extend_pcrs(env, hand_off) {
            Ok(()) => {},
            Err(e) => {
                return Err(e);
            },
        }
        let input = match Self::dice_input_from_hand_off(env, hand_off) {
            Ok(i) => i,
            Err(e) => {
                return Err(e);
            },
        };
        Self::derive(env, &input)
    }

    /// Assemble the layer input from the hand-off record: the inherited
    /// secret and destination slots it names, the parent authority slot
    /// of the inter-stage convention with its public key restated from
    /// that slot, and placeholder parent names — the parent left no
    /// naming material in the record.
    pub fn dice_input_from_hand_off(env: &FmcEnv, hand_off: &HandOff) -> (r: Result<
        DiceInput,
        FmcError,
    >)
        requires
            env.wf(),
            hand_off.wf(),
        ensures
            can_sign(env.key_vault, spec_parent_auth_slot()) ==> (r matches Ok(input) && {
                &&& input.wf()
                &&& input.cdi == hand_off.fmc_cdi
                &&& input.subj_priv_key == hand_off.fmc_priv_key
                &&& input.uds_key == hand_off.fmc_cdi
                &&& input.auth_key_pair.priv_key == spec_parent_auth_slot()
                &&& auth_pub_matches(env.key_vault, input)
                &&& input.auth_sn@ == Seq::new(64, |i: int| 0u8)
                &&& input.auth_key_id@ == Seq::new(20, |i: int| 0u8)
            }),
            !can_sign(env.key_vault, spec_parent_auth_slot()) ==> r == Err::<DiceInput, FmcError>(
                FmcError::CapabilityMismatch,
            ),
    {
        let auth_slot = parent_auth_slot();
        let auth_pub = match Crypto::ecc384_pub_key(env, auth_slot) {
            Ok(pk) => pk,
            Err(e) => {
                return Err(e);
            },
        };
        Ok(
            DiceInput {
                cdi: hand_off.fmc_cdi(),
                subj_priv_key: hand_off.fmc_priv_key(),
                auth_key_pair: Ecc384KeyPair { priv_key: auth_slot, pub_key: auth_pub },
                auth_sn: zero_bytes(64),
                auth_key_id: zero_bytes(20),
                uds_key: hand_off.fmc_cdi(),
            },
        )
    }

    /// Extend the journey register and then the current-cycle register
    /// with the hand-off evidence. Both must complete before derivation
    /// reads them.
    pub fn extend_pcrs(env: &mut FmcEnv, hand_off: &HandOff) -> (r: Result<(), FmcError>)
        requires
            old(env).wf(),
        ensures
            final(env).wf(),
            r is Ok,
            final(env).key_vault == old(env).key_vault,
            final(env).reset_reason == old(env).reset_reason,
            final(env).pcr_bank.pcr0_value() == mac384_spec(
                old(env).pcr_bank.pcr0_value(),
                hand_off.measurement@,
            ),
            final(env).pcr_bank.pcr1_value() == mac384_spec(
                old(env).pcr_bank.pcr1_value(),
                hand_off.measurement@,
            ),
    {
        match extend_pcr0(env, hand_off) {
            Ok(()) => {},
            Err(e) => {
                return Err(e);
            },
        }
        match extend_pcr1(env, hand_off) {
            Ok(()) => {},
            Err(e) => {
                return Err(e);
            },
        }
        Ok(())
    }

    /// Derive this layer's secret: the MAC over the measurement `uds`
    /// under the inherited secret, written back into the inherited
    /// secret's slot flagged for MAC-key and seed use.
    pub fn derive_cdi(env: &mut FmcEnv, uds: &Vec<u8>, cdi: KeyId) -> (r: Result<KeyId, FmcError>)
        requires
            old(env).wf(),
        ensures
            final(env).wf(),
            final(env).pcr_bank == old(env).pcr_bank,
            final(env).reset_reason == old(env).reset_reason,
            can_derive(old(env).key_vault, cdi) ==> {
                &&& r == Ok::<KeyId, FmcError>(cdi)
                &&& final(env).key_vault.occupied(cdi)
                &&& final(env).key_vault.usage(cdi) == KeyUsage::spec_derived_secret()
                &&& final(env).key_vault.value(cdi) == mac384_spec(
                    old(env).key_vault.value(cdi),
                    uds@,
                )
                &&& (forall|k: KeyId|
                    k != cdi ==> final(env).key_vault.slot_eq(old(env).key_vault, k))
            },
            !can_derive(old(env).key_vault, cdi) ==> r == Err::<KeyId, FmcError>(
                FmcError::CapabilityMismatch,
            ) && *final(env) == *old(env),
    {
        Crypto::hmac384_mac(env, cdi, uds, cdi)
    }

    /// Derive this layer's key pair from the layer secret in slot `cdi`,
    /// writing the private half into slot `priv_key`.
    pub fn derive_key_pair(env: &mut FmcEnv, cdi: KeyId, priv_key: KeyId) -> (r: Result<
        Ecc384KeyPair,
        FmcError,
    >)
        requires
            old(env).wf(),
        ensures
            final(env).wf(),
            final(env).pcr_bank == old(env).pcr_bank,
            final(env).reset_reason == old(env).reset_reason,
            old(env).key_vault.readable(cdi, KeyUsage::spec_key_gen_seed()) ==> {
                &&& (r matches Ok(kp) && {
                    &&& kp.priv_key == priv_key
                    &&& kp.pub_key.wf()
                    &&& kp.pub_key.x@ == pub_x_of(priv_of_seed(old(env).key_vault.value(cdi)))
                    &&& kp.pub_key.y@ == pub_y_of(priv_of_seed(old(env).key_vault.value(cdi)))
                })
                &&& final(env).key_vault.occupied(priv_key)
                &&& final(env).key_vault.usage(priv_key) == KeyUsage::spec_private_key()
                &&& final(env).key_vault.value(priv_key) == priv_of_seed(
                    old(env).key_vault.value(cdi),
                )
                &&& (forall|k: KeyId|
                    k != priv_key ==> final(env).key_vault.slot_eq(old(env).key_vault, k))
            },
            !old(env).key_vault.readable(cdi, KeyUsage::spec_key_gen_seed()) ==> r == Err::<
                Ecc384KeyPair,
                FmcError,
            >(FmcError::CapabilityMismatch) && *final(env) == *old(env),
    {
        Crypto::ecc384_key_gen(env, cdi, priv_key)
    }

    /// Sign the binding of the freshly derived identity with the parent's
    /// authority key, check the signature against the parent public key
    /// carried in the input, and erase the authority slot: a layer's
    /// authority key must not be reusable after minting its child's
    /// certificate.
    pub fn generate_cert_sig(env: &mut FmcEnv, input: &DiceInput, output: &DiceOutput) -> (r:
        Result<(), FmcError>)
        requires
            old(env).wf(),
            input.wf(),
            output.wf(),
        ensures
            final(env).wf(),
            final(env).pcr_bank == old(env).pcr_bank,
            final(env).reset_reason == old(env).reset_reason,
            !can_sign(old(env).key_vault, input.auth_key_pair.priv_key) ==> r == Err::<
                (),
                FmcError,
            >(FmcError::CapabilityMismatch) && *final(env) == *old(env),
            can_sign(old(env).key_vault, input.auth_key_pair.priv_key) && !auth_pub_matches(
                old(env).key_vault,
                *input,
            ) ==> r == Err::<(), FmcError>(FmcError::SignatureVerificationFailure) && *final(env)
                == *old(env),
            can_sign(old(env).key_vault, input.auth_key_pair.priv_key) && auth_pub_matches(
                old(env).key_vault,
                *input,
            ) ==> {
                &&& r == Ok::<(), FmcError>(())
                &&& !final(env).key_vault.occupied(input.auth_key_pair.priv_key)
                &&& (forall|k: KeyId|
                    k != input.auth_key_pair.priv_key ==> final(env).key_vault.slot_eq(
                        old(env).key_vault,
                        k,
                    ))
            },
    {
        let auth = input.auth_key_pair.priv_key;
        let tbs = Self::build_tbs(output);
        let sig = match Crypto::ecdsa384_sign(env, auth, &tbs) {
            Ok(s) => s,
            Err(e) => {
                return Err(e);
            },
        };
        let ok = Crypto::ecdsa384_verify(env, &input.auth_key_pair.pub_key, &tbs, &sig);
        proof {
            if ok && !auth_pub_matches(old(env).key_vault, *input) {
                env.key_vault.lemma_value_len(auth);
                lemma_mac384_key_injective(
                    pub_x_of(env.key_vault.value(auth)),
                    input.auth_key_pair.pub_key.x@,
                    tbs@,
                );
                lemma_mac384_key_injective(
                    pub_y_of(env.key_vault.value(auth)),
                    input.auth_key_pair.pub_key.y@,
                    tbs@,
                );
            }
        }
        if !ok {
            return Err(FmcError::SignatureVerificationFailure);
        }
        env.key_vault.erase_key(auth);
        Ok(())
    }

    /// The to-be-signed bytes of `output`: serial number, key identifier,
    /// and the DER form of the public key. The exact field set of the
    /// certificate body is an integration detail of the certificate
    /// profile; what matters here is that the bytes bind the subject name
    /// and key.
    fn build_tbs(output: &DiceOutput) -> (r: Vec<u8>)
        requires
            output.wf(),
        ensures
            r@ == tbs_spec(
                output.subj_sn@,
                output.subj_key_id@,
                output.subj_key_pair.pub_key.x@,
                output.subj_key_pair.pub_key.y@,
            ),
    {
        let mut tbs = copy_bytes(&output.subj_sn);
        append_bytes(&mut tbs, &output.subj_key_id);
        let der = output.subj_key_pair.pub_key.to_der();
        append_bytes(&mut tbs, &der);
        tbs
    }
}

} // verus!
