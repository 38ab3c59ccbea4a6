use fmc_dice::crypto::Crypto;
use fmc_dice::dice::DiceInput;
use fmc_dice::error::FmcError;
use fmc_dice::fmc_env::{FmcEnv, ResetReason};
use fmc_dice::flow;
use fmc_dice::hand_off::HandOff;
use fmc_dice::key_vault::{KeyId, KeyUsage};
use fmc_dice::pcr_bank::PcrId;
use fmc_dice::rt_alias::RtAliasLayer;

fn usage(hmac: bool, seed: bool, private: bool) -> KeyUsage {
    KeyUsage { hmac_key: hmac, ecc_key_gen_seed: seed, ecc_private_key: private }
}

fn sample_secret() -> Vec<u8> {
    let mut v = Vec::new();
    for i in 0..48u32 {
        v.push((i * 7 + 3) as u8);
    }
    v
}

fn sample_parent_key() -> Vec<u8> {
    let mut v = Vec::new();
    for i in 0..48u32 {
        v.push((i * 11 + 5) as u8);
    }
    v
}

fn sample_measurement() -> Vec<u8> {
    vec![0x10, 0x20, 0x30, 0x40, 0x55]
}

/// An environment as the previous stage leaves it on a cold boot: the
/// inherited secret in slot 0 usable as a MAC key, the parent authority
/// key in slot 5, registers cleared.
fn cold_env() -> FmcEnv {
    let mut env = FmcEnv::new(ResetReason::ColdReset);
    env.key_vault.write_key(KeyId::KeyId0, sample_secret(), usage(true, false, false));
    env.key_vault.write_key(KeyId::KeyId5, sample_parent_key(), usage(false, false, true));
    env
}

fn sample_hand_off() -> HandOff {
    HandOff::new(KeyId::KeyId0, KeyId::KeyId1, 0x4000_0000, sample_measurement())
}

fn unhex(c: u8) -> u8 {
    if (48..=57).contains(&c) {
        c - 48
    } else {
        assert!((65..=70).contains(&c), "character outside the hex alphabet");
        c - 55
    }
}

#[test]
fn cold_boot_end_to_end() {
    let mut env = cold_env();
    let hand_off = sample_hand_off();
    let out = flow::run(&mut env, &hand_off).unwrap();

    // The public key is keygen(mac(S, M)) for the inherited secret S and
    // the extended measurement-register value M, recomputed here through
    // the primitives on a second environment.
    let m_reg = env.pcr_bank.read_pcr(PcrId::PcrId1);
    let mut twin = FmcEnv::new(ResetReason::ColdReset);
    twin.key_vault.write_key(KeyId::KeyId2, sample_secret(), usage(true, false, false));
    let tag_slot = Crypto::hmac384_mac(&mut twin, KeyId::KeyId2, &m_reg, KeyId::KeyId2).unwrap();
    let kp = Crypto::ecc384_key_gen(&mut twin, tag_slot, KeyId::KeyId3).unwrap();
    assert_eq!(out.subj_key_pair.pub_key.x, kp.pub_key.x);
    assert_eq!(out.subj_key_pair.pub_key.y, kp.pub_key.y);
    assert_eq!(out.subj_key_pair.priv_key, KeyId::KeyId1);

    // The subject serial number is the hex of the digest of the public
    // key's DER form, and decodes back to that digest.
    let der = out.subj_key_pair.pub_key.to_der();
    assert_eq!(der.len(), 97);
    let digest = Crypto::sha256_digest(&twin, &der).unwrap();
    assert_eq!(out.subj_sn.len(), 64);
    for i in 0..32 {
        let v = unhex(out.subj_sn[2 * i]) * 16 + unhex(out.subj_sn[2 * i + 1]);
        assert_eq!(v, digest[i]);
    }
    assert_eq!(out.subj_key_id, digest[..20].to_vec());
}

#[test]
fn derivation_is_deterministic() {
    let hand_off = sample_hand_off();
    let mut env_a = cold_env();
    let mut env_b = cold_env();
    let out_a = RtAliasLayer::run(&mut env_a, &hand_off).unwrap();
    let out_b = RtAliasLayer::run(&mut env_b, &hand_off).unwrap();
    assert_eq!(out_a.subj_key_pair.pub_key.x, out_b.subj_key_pair.pub_key.x);
    assert_eq!(out_a.subj_key_pair.pub_key.y, out_b.subj_key_pair.pub_key.y);
    assert_eq!(out_a.subj_sn, out_b.subj_sn);
    assert_eq!(out_a.subj_key_id, out_b.subj_key_id);
}

#[test]
fn output_chains_into_next_input() {
    let mut env = cold_env();
    let out = RtAliasLayer::run(&mut env, &sample_hand_off()).unwrap();
    let next = DiceInput::from_output(&out, KeyId::KeyId2, KeyId::KeyId3, KeyId::KeyId2);
    assert_eq!(next.auth_key_pair.priv_key, out.subj_key_pair.priv_key);
    assert_eq!(next.auth_key_pair.pub_key.x, out.subj_key_pair.pub_key.x);
    assert_eq!(next.auth_key_pair.pub_key.y, out.subj_key_pair.pub_key.y);
    assert_eq!(next.auth_sn, out.subj_sn);
    assert_eq!(next.auth_key_id, out.subj_key_id);
    assert_eq!(next.cdi, KeyId::KeyId2);
    assert_eq!(next.subj_priv_key, KeyId::KeyId3);
}

#[test]
fn measurement_disagreement_is_fatal() {
    let mut env = cold_env();
    // Extend only the journey register: the two registers now differ.
    let evidence = sample_measurement();
    env.pcr_bank.extend_pcr(PcrId::PcrId0, &evidence);
    let input = RtAliasLayer::dice_input_from_hand_off(&env, &sample_hand_off()).unwrap();
    let r = RtAliasLayer::derive(&mut env, &input);
    assert_eq!(r.err(), Some(FmcError::MeasurementDisagreement));
}

#[test]
fn parent_key_is_erased_after_signing() {
    let mut env = cold_env();
    let out = RtAliasLayer::run(&mut env, &sample_hand_off());
    assert!(out.is_ok());
    // The authority slot refuses every read once erased, whatever
    // capability is demanded.
    let as_private = env.key_vault.read_key(KeyId::KeyId5, usage(false, false, true));
    assert_eq!(as_private.err(), Some(FmcError::CapabilityMismatch));
    let any_at_all = env.key_vault.read_key(KeyId::KeyId5, usage(false, false, false));
    assert_eq!(any_at_all.err(), Some(FmcError::CapabilityMismatch));
}

#[test]
fn inherited_secret_without_mac_capability_is_refused() {
    let mut env = FmcEnv::new(ResetReason::ColdReset);
    // The secret is present but only flagged as a seed: the MAC step may
    // not use it.
    env.key_vault.write_key(KeyId::KeyId0, sample_secret(), usage(false, true, false));
    env.key_vault.write_key(KeyId::KeyId5, sample_parent_key(), usage(false, false, true));
    let r = flow::run(&mut env, &sample_hand_off());
    assert_eq!(r.err(), Some(FmcError::CapabilityMismatch));
}

#[test]
fn missing_parent_key_is_refused() {
    let mut env = FmcEnv::new(ResetReason::ColdReset);
    env.key_vault.write_key(KeyId::KeyId0, sample_secret(), usage(true, false, false));
    let r = flow::run(&mut env, &sample_hand_off());
    assert_eq!(r.err(), Some(FmcError::CapabilityMismatch));
}

#[test]
fn mismatched_parent_public_key_fails_verification() {
    let mut env = cold_env();
    let hand_off = sample_hand_off();
    env.pcr_bank.extend_pcr(PcrId::PcrId0, &hand_off.measurement);
    env.pcr_bank.extend_pcr(PcrId::PcrId1, &hand_off.measurement);
    let mut input = RtAliasLayer::dice_input_from_hand_off(&env, &hand_off).unwrap();
    // Replace the restated parent public key with a placeholder that does
    // not match the authority slot.
    input.auth_key_pair.pub_key = fmc_dice::crypto::Ecc384PubKey::zeroed();
    let r = RtAliasLayer::derive(&mut env, &input);
    assert_eq!(r.err(), Some(FmcError::SignatureVerificationFailure));
    // The derivation writes landed before the failure; the authority key
    // survives, unconsumed.
    let sk = env.key_vault.read_key(KeyId::KeyId5, usage(false, false, true));
    assert_eq!(sk.unwrap(), sample_parent_key());
}

#[test]
fn derived_secret_replaces_inherited_secret_in_place() {
    let mut env = cold_env();
    let out = RtAliasLayer::run(&mut env, &sample_hand_off());
    assert!(out.is_ok());
    // The inherited-secret slot now holds the derived layer secret,
    // readable both as a MAC key and as a seed, and no longer equal to
    // the inherited bytes.
    let as_mac = env.key_vault.read_key(KeyId::KeyId0, usage(true, false, false)).unwrap();
    let as_seed = env.key_vault.read_key(KeyId::KeyId0, usage(false, true, false)).unwrap();
    assert_eq!(as_mac, as_seed);
    assert_ne!(as_mac, sample_secret());
}

#[test]
fn warm_reset_reruns_derivation_against_persisted_journey() {
    let mut env = cold_env();
    let hand_off = sample_hand_off();
    let first = flow::run(&mut env, &hand_off);
    assert!(first.is_ok());

    // The reset: the current-cycle register clears, the journey register
    // and the key store persist; the parent authority is re-provisioned
    // for the new cycle and the evolved slot secret keys the re-run.
    env.pcr_bank.clear_pcr(PcrId::PcrId1);
    env.reset_reason = ResetReason::WarmReset;
    env.key_vault.write_key(KeyId::KeyId5, sample_parent_key(), usage(false, false, true));

    let journey_before = env.pcr_bank.read_pcr(PcrId::PcrId0);
    let second = flow::run(&mut env, &hand_off);
    assert!(second.is_ok());
    // The warm flow does not re-extend the journey register.
    assert_eq!(env.pcr_bank.read_pcr(PcrId::PcrId0), journey_before);
}

#[test]
fn update_reset_with_changed_evidence_reports_disagreement() {
    let mut env = cold_env();
    let hand_off = sample_hand_off();
    let first = flow::run(&mut env, &hand_off);
    assert!(first.is_ok());

    env.pcr_bank.clear_pcr(PcrId::PcrId1);
    env.reset_reason = ResetReason::UpdateReset;
    env.key_vault.write_key(KeyId::KeyId5, sample_parent_key(), usage(false, false, true));

    // The new image measures differently: the re-extended current-cycle
    // register cannot agree with the persisted journey register.
    let new_evidence = vec![0x99, 0x88, 0x77];
    let changed = HandOff::new(KeyId::KeyId0, KeyId::KeyId1, 0x4000_0000, new_evidence);
    let r = flow::run(&mut env, &changed);
    assert_eq!(r.err(), Some(FmcError::MeasurementDisagreement));
}
