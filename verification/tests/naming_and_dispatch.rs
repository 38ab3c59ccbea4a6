use fmc_dice::crypto::{Crypto, Ecc384PubKey};
use fmc_dice::error::{error_code, fmc_panic, halt_action_for, FmcError, HaltAction};
use fmc_dice::fmc_env::{FmcEnv, ResetReason};
use fmc_dice::flow::{select_flow, SelectedFlow, UnknownResetFlow};
use fmc_dice::hand_off::HandOff;
use fmc_dice::key_vault::{KeyId, KeyUsage, KeyVault};
use fmc_dice::pcr_bank::PcrId;
use fmc_dice::x509::{Certificate, X509};

fn usage(hmac: bool, seed: bool, private: bool) -> KeyUsage {
    KeyUsage { hmac_key: hmac, ecc_key_gen_seed: seed, ecc_private_key: private }
}

#[test]
fn subject_serial_number_known_answer() {
    // For the all-zero public key the DER form is 0x04 followed by 96
    // zero bytes; the digest works out to byte j = 0x05 ^ j, and the
    // serial number is its upper-case hex.
    let env = FmcEnv::new(ResetReason::ColdReset);
    let pk = Ecc384PubKey::zeroed();
    let sn = X509::subj_sn(&env, &pk).unwrap();
    let expected = b"05040706010003020D0C0F0E09080B0A15141716111013121D1C1F1E19181B1A";
    assert_eq!(sn, expected.to_vec());

    let digest = Crypto::sha256_digest(&env, &pk.to_der()).unwrap();
    for (j, b) in digest.iter().enumerate() {
        assert_eq!(*b, 0x05 ^ (j as u8));
    }
    let id = X509::subj_key_id(&env, &pk).unwrap();
    assert_eq!(id, digest[..20].to_vec());
}

#[test]
fn certificate_serial_number_clears_the_sign_bit() {
    // A public key whose digest starts with a byte above 0x7F: the
    // certificate serial number clears the top bit, the key identifier
    // keeps it, and the remaining bytes agree.
    let env = FmcEnv::new(ResetReason::ColdReset);
    let mut x = vec![0u8; 48];
    x[0] = 0xFF;
    let pk = Ecc384PubKey { x, y: vec![0u8; 48] };
    let digest = Crypto::sha256_digest(&env, &pk.to_der()).unwrap();
    assert_eq!(digest[0], 0xFA);
    let key_id = X509::subj_key_id(&env, &pk).unwrap();
    let cert_sn = X509::cert_sn(&env, &pk).unwrap();
    assert_eq!(key_id[0], 0xFA);
    assert_eq!(cert_sn[0], 0x7A);
    assert_eq!(cert_sn[1..], key_id[1..]);
    assert!(cert_sn[0] < 0x80);
    assert_eq!(cert_sn.len(), 20);
    assert_eq!(key_id.len(), 20);
}

#[test]
fn dispatch_selects_exactly_the_matching_flow() {
    assert_eq!(select_flow(ResetReason::ColdReset), SelectedFlow::Cold);
    assert_eq!(select_flow(ResetReason::WarmReset), SelectedFlow::Warm);
    assert_eq!(select_flow(ResetReason::UpdateReset), SelectedFlow::Update);
    assert_eq!(select_flow(ResetReason::Unknown), SelectedFlow::Unknown);
}

#[test]
fn unknown_reset_halts_without_deriving() {
    let mut env = FmcEnv::new(ResetReason::Unknown);
    let secret: Vec<u8> = (0..48u8).collect();
    env.key_vault.write_key(KeyId::KeyId0, secret.clone(), usage(true, false, false));
    env.key_vault.write_key(KeyId::KeyId5, secret.clone(), usage(false, false, true));
    let hand_off = HandOff::new(KeyId::KeyId0, KeyId::KeyId1, 0x4000_0000, vec![1, 2, 3]);

    let r = fmc_dice::flow::run(&mut env, &hand_off);
    assert_eq!(r.err(), Some(FmcError::UnknownResetReason));

    // Nothing was extended, written or erased.
    assert_eq!(env.pcr_bank.read_pcr(PcrId::PcrId0), vec![0u8; 48]);
    assert_eq!(env.pcr_bank.read_pcr(PcrId::PcrId1), vec![0u8; 48]);
    assert_eq!(env.key_vault.read_key(KeyId::KeyId0, usage(true, false, false)).unwrap(), secret);
    assert_eq!(env.key_vault.read_key(KeyId::KeyId5, usage(false, false, true)).unwrap(), secret);

    // The dedicated flow reports the same, and its report is the
    // non-fatal one.
    let r2 = UnknownResetFlow::run(&mut env, &hand_off);
    assert_eq!(r2.err(), Some(FmcError::UnknownResetReason));
    assert_eq!(
        halt_action_for(FmcError::UnknownResetReason),
        HaltAction::ReportNonFatal(error_code(FmcError::UnknownResetReason))
    );
}

#[test]
fn fatal_errors_report_fatally() {
    for e in [
        FmcError::CapabilityMismatch,
        FmcError::MeasurementDisagreement,
        FmcError::CryptoFailure,
        FmcError::SignatureVerificationFailure,
    ] {
        assert_eq!(halt_action_for(e), HaltAction::ReportFatal(error_code(e)));
    }
    assert_eq!(error_code(FmcError::CapabilityMismatch), 0xE001);
    assert_eq!(error_code(FmcError::MeasurementDisagreement), 0xE002);
    assert_eq!(error_code(FmcError::CryptoFailure), 0xE003);
    assert_eq!(error_code(FmcError::SignatureVerificationFailure), 0xE004);
    assert_eq!(error_code(FmcError::UnknownResetReason), 0xE005);
    assert_eq!(fmc_panic(), HaltAction::Spin);
}

#[test]
fn key_vault_enforces_usage_flags() {
    let mut vault = KeyVault::new();
    let bytes: Vec<u8> = (100..148u8).collect();
    vault.write_key(KeyId::KeyId3, bytes.clone(), usage(true, false, false));
    assert_eq!(vault.read_key(KeyId::KeyId3, usage(true, false, false)).unwrap(), bytes);
    // A capability outside the stored set is refused.
    assert_eq!(
        vault.read_key(KeyId::KeyId3, usage(false, true, false)).err(),
        Some(FmcError::CapabilityMismatch)
    );
    assert_eq!(
        vault.read_key(KeyId::KeyId3, usage(true, false, true)).err(),
        Some(FmcError::CapabilityMismatch)
    );
    // An empty slot is refused outright.
    assert_eq!(
        vault.read_key(KeyId::KeyId4, usage(false, false, false)).err(),
        Some(FmcError::CapabilityMismatch)
    );
}

#[test]
fn erase_is_idempotent() {
    let mut vault = KeyVault::new();
    // Erasing a slot that was never written succeeds.
    vault.erase_key(KeyId::KeyId6);
    let bytes: Vec<u8> = (0..48u8).collect();
    vault.write_key(KeyId::KeyId6, bytes, usage(false, false, true));
    vault.erase_key(KeyId::KeyId6);
    vault.erase_key(KeyId::KeyId6);
    assert_eq!(
        vault.read_key(KeyId::KeyId6, usage(false, false, false)).err(),
        Some(FmcError::CapabilityMismatch)
    );
}

#[test]
fn mac_rederives_identically_and_keygen_is_seed_determined() {
    let mut env_a = FmcEnv::new(ResetReason::ColdReset);
    let mut env_b = FmcEnv::new(ResetReason::ColdReset);
    let secret: Vec<u8> = (7..55u8).collect();
    env_a.key_vault.write_key(KeyId::KeyId1, secret.clone(), usage(true, false, false));
    env_b.key_vault.write_key(KeyId::KeyId2, secret, usage(true, false, false));
    let data = vec![9, 9, 9];
    Crypto::hmac384_mac(&mut env_a, KeyId::KeyId1, &data, KeyId::KeyId1).unwrap();
    Crypto::hmac384_mac(&mut env_b, KeyId::KeyId2, &data, KeyId::KeyId2).unwrap();
    let kp_a = Crypto::ecc384_key_gen(&mut env_a, KeyId::KeyId1, KeyId::KeyId4).unwrap();
    let kp_b = Crypto::ecc384_key_gen(&mut env_b, KeyId::KeyId2, KeyId::KeyId4).unwrap();
    assert_eq!(kp_a.pub_key.x, kp_b.pub_key.x);
    assert_eq!(kp_a.pub_key.y, kp_b.pub_key.y);
}

#[test]
fn pcr_extension_is_cumulative() {
    let mut env = FmcEnv::new(ResetReason::ColdReset);
    let evidence = vec![0xAB, 0xCD];
    env.pcr_bank.extend_pcr(PcrId::PcrId0, &evidence);
    let once = env.pcr_bank.read_pcr(PcrId::PcrId0);
    // The register folds the old value in: a second extension with the
    // same evidence lands elsewhere, and the sibling register is
    // untouched throughout.
    env.pcr_bank.extend_pcr(PcrId::PcrId0, &evidence);
    let twice = env.pcr_bank.read_pcr(PcrId::PcrId0);
    assert_ne!(once, twice);
    assert_eq!(env.pcr_bank.read_pcr(PcrId::PcrId1), vec![0u8; 48]);
}

#[test]
fn signature_binds_key_and_message() {
    let mut env = FmcEnv::new(ResetReason::ColdReset);
    let sk: Vec<u8> = (0..48u8).map(|i| i.wrapping_mul(3)).collect();
    env.key_vault.write_key(KeyId::KeyId5, sk, usage(false, false, true));
    let pk = Crypto::ecc384_pub_key(&env, KeyId::KeyId5).unwrap();
    let message = vec![1, 2, 3, 4];
    let sig = Crypto::ecdsa384_sign(&env, KeyId::KeyId5, &message).unwrap();
    assert!(Crypto::ecdsa384_verify(&env, &pk, &message, &sig));
    // A different message, or a different key, fails the check.
    let other = vec![1, 2, 3, 5];
    assert!(!Crypto::ecdsa384_verify(&env, &pk, &other, &sig));
    assert!(!Crypto::ecdsa384_verify(&env, &Ecc384PubKey::zeroed(), &message, &sig));
    // Signing demands the private-key capability.
    let refused = Crypto::ecdsa384_sign(&env, KeyId::KeyId0, &message);
    assert_eq!(refused.err(), Some(FmcError::CapabilityMismatch));
}

#[test]
fn certificate_returns_filled_prefix() {
    let cert = Certificate::new(vec![1, 2, 3, 4, 5], 3);
    assert_eq!(cert.get(), Some(vec![1, 2, 3]));
    let whole = Certificate::new(vec![1, 2], 2);
    assert_eq!(whole.get(), Some(vec![1, 2]));
    let overrun = Certificate::new(vec![1, 2], 3);
    assert_eq!(overrun.get(), None);
}
