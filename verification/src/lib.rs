//! Identity derivation and measured boot for a first-mutable-code (FMC) boot
//! stage.
//!
//! The crate models the DICE layered-derivation protocol of a hardware
//! root of trust: it extends the platform measurement registers with the
//! hand-off evidence, derives a fresh layer secret from the inherited secret
//! and the measurement, turns that secret into a key pair and certificate
//! naming material, signs and checks the binding to the parent identity, and
//! erases the parent's private key. Every step is gated by the latched
//! hardware reset reason.
//!
//! Secret material lives in a slot-indexed protected key vault and is only
//! reachable through usage-flag-checked handles; the cryptographic engine is
//! a deterministic software model so that every derivation law can be stated
//! and proved over plain byte sequences.

pub mod crypto;
pub mod dice;
pub mod error;
pub mod fmc_env;
pub mod flow;
pub mod hand_off;
pub mod key_vault;
pub mod pcr_bank;
pub mod rt_alias;
pub mod x509;
