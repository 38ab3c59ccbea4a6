//! The cryptographic engine of the stage: digest, keyed MAC, deterministic
//! key-pair generation, and signing, together with the byte-level helpers the
//! rest of the crate shares.
//!
//! The engine is a deterministic software model. Each primitive is a total
//! function of its inputs, specified exactly by a spec function over byte
//! sequences, so that the derivation laws (determinism, chaining, naming)
//! are theorems rather than assumptions. Secret-consuming primitives take
//! key-vault slot handles, never raw secret buffers.

use vstd::prelude::*;

use crate::error::FmcError;
use crate::fmc_env::FmcEnv;
use crate::key_vault::{KeyId, KeyUsage};

verus! {

/// The running mix of a byte stream: each byte is folded in together with
/// its position, so the accumulator depends on both content and order.
pub open spec fn xor_acc(data: Seq<u8>) -> u8
    decreases data.len(),
{
    if data.len() == 0 {
        0u8
    } else {
        xor_acc(data.drop_last()) ^ data.last() ^ (((data.len() - 1) % 256) as u8)
    }
}

/// The 32-byte digest of `data`: every lane mixes the stream accumulator
/// with the lane index and the stream length.
pub open spec fn digest256_spec(data: Seq<u8>) -> Seq<u8> {
    Seq::new(32, |j: int| xor_acc(data) ^ (j as u8) ^ ((data.len() % 256) as u8))
}

/// The 48-byte authentication tag over `data` under `key`.
pub open spec fn mac384_spec(key: Seq<u8>, data: Seq<u8>) -> Seq<u8> {
    Seq::new(48, |j: int| key[j] ^ xor_acc(data) ^ (j as u8))
}

/// The private scalar that key generation derives from a 48-byte seed.
pub open spec fn priv_of_seed(seed: Seq<u8>) -> Seq<u8> {
    Seq::new(48, |j: int| seed[j] ^ 0xA5u8)
}

/// The x coordinate of the public key of the private scalar `sk`.
pub open spec fn pub_x_of(sk: Seq<u8>) -> Seq<u8> {
    Seq::new(48, |j: int| sk[j] ^ (j as u8) ^ 0x3Cu8)
}

/// The y coordinate of the public key of the private scalar `sk`.
pub open spec fn pub_y_of(sk: Seq<u8>) -> Seq<u8> {
    Seq::new(48, |j: int| sk[j] ^ (j as u8) ^ 0xC3u8)
}

/// The DER encoding of an uncompressed public point: a leading `0x04`
/// marker followed by the two coordinates.
pub open spec fn der_of(x: Seq<u8>, y: Seq<u8>) -> Seq<u8> {
    seq![0x04u8] + x + y
}

/// A copy of `src`.
pub fn copy_bytes(src: &Vec<u8>) -> (r: Vec<u8>)
    ensures
        r@ == src@,
{
    let mut out: Vec<u8> = Vec::new();
    let mut i: usize = 0;
    while i < src.len()
        invariant
            i <= src.len(),
            out@ == src@.take(i as int),
        decreases src.len() - i,
    {
        out.push(src[i]);
        proof {
            assert(src@.take(i + 1 as int) =~= src@.take(i as int).push(src@[i as int]));
        }
        i = i + 1;
    }
    proof {
        assert(src@.take(src@.len() as int) =~= src@);
    }
    out
}

/// A vector of `n` zero bytes.
pub fn zero_bytes(n: usize) -> (r: Vec<u8>)
    ensures
        r@ == Seq::new(n as nat, |i: int| 0u8),
{
    let mut out: Vec<u8> = Vec::new();
    let mut i: usize = 0;
    while i < n
        invariant
            i <= n,
            out@.len() == i,
            forall|k: int| 0 <= k < i ==> out@[k] == 0u8,
        decreases n - i,
    {
        out.push(0u8);
        i = i + 1;
    }
    proof {
        assert(out@ =~= Seq::new(n as nat, |i: int| 0u8));
    }
    out
}

/// Append the bytes of `src` to `dst`.
pub fn append_bytes(dst: &mut Vec<u8>, src: &Vec<u8>)
    ensures
        final(dst)@ == old(dst)@ + src@,
{
    let mut i: usize = 0;
    while i < src.len()
        invariant
            i <= src.len(),
            dst@ == old(dst)@ + src@.take(i as int),
        decreases src.len() - i,
    {
        dst.push(src[i]);
        proof {
            assert(src@.take(i + 1 as int) =~= src@.take(i as int).push(src@[i as int]));
            assert((old(dst)@ + src@.take(i as int)).push(src@[i as int]) =~= old(dst)@
                + src@.take(i + 1 as int));
        }
        i = i + 1;
    }
    proof {
        assert(src@.take(src@.len() as int) =~= src@);
    }
}

/// Whether the two byte vectors hold the same bytes.
pub fn bytes_eq(a: &Vec<u8>, b: &Vec<u8>) -> (r: bool)
    ensures
        r == (a@ == b@),
{
    if a.len() != b.len() {
        proof {
            assert(a@ != b@);
        }
        return false;
    }
    let mut i: usize = 0;
    while i < a.len()
        invariant
            i <= a.len(),
            a@.len() == b@.len(),
            forall|k: int| 0 <= k < i ==> a@[k] == b@[k],
        decreases a.len() - i,
    {
        if a[i] != b[i] {
            proof {
                assert(a@ != b@);
            }
            return false;
        }
        i = i + 1;
    }
    proof {
        assert(a@ =~= b@);
    }
    true
}

/// The stream accumulator of `data`, computed in one pass.
fn fold_bytes(data: &Vec<u8>) -> (r: u8)
    ensures
        r == xor_acc(data@),
{
    let mut acc: u8 = 0;
    let mut i: usize = 0;
    while i < data.len()
        invariant
            i <= data.len(),
            acc == xor_acc(data@.take(i as int)),
        decreases data.len() - i,
    {
        proof {
            assert(data@.take(i + 1 as int).drop_last() =~= data@.take(i as int));
            assert(data@.take(i + 1 as int).last() == data@[i as int]);
        }
        acc = acc ^ data[i] ^ ((i % 256) as u8);
        i = i + 1;
    }
    proof {
        assert(data@.take(data@.len() as int) =~= data@);
    }
    acc
}

/// The digest primitive: a stateless 32-byte digest of `data`.
pub fn digest256(data: &Vec<u8>) -> (r: Vec<u8>)
    ensures
        r@ == digest256_spec(data@),
{
    let acc = fold_bytes(data);
    let len_byte: u8 = (data.len() % 256) as u8;
    let mut out: Vec<u8> = Vec::new();
    let mut j: usize = 0;
    while j < 32
        invariant
            j <= 32,
            acc == xor_acc(data@),
            len_byte == (data@.len() % 256) as u8,
            out@.len() == j,
            forall|k: int| 0 <= k < j ==> out@[k] == acc ^ (k as u8) ^ len_byte,
        decreases 32 - j,
    {
        out.push(acc ^ (j as u8) ^ len_byte);
        j = j + 1;
    }
    proof {
        assert(out@ =~= digest256_spec(data@));
    }
    out
}

/// The 48-byte keyed mix of `key` and `data`; the MAC tag and the
/// measurement-register extension both are this function.
pub fn mix48(key: &Vec<u8>, data: &Vec<u8>) -> (r: Vec<u8>)
    requires
        key@.len() == 48,
    ensures
        r@ == mac384_spec(key@, data@),
{
    let acc = fold_bytes(data);
    let mut out: Vec<u8> = Vec::new();
    let mut j: usize = 0;
    while j < 48
        invariant
            j <= 48,
            key@.len() == 48,
            acc == xor_acc(data@),
            out@.len() == j,
            forall|k: int| 0 <= k < j ==> out@[k] == key@[k] ^ acc ^ (k as u8),
        decreases 48 - j,
    {
        out.push(key[j] ^ acc ^ (j as u8));
        j = j + 1;
    }
    proof {
        assert(out@ =~= mac384_spec(key@, data@));
    }
    out
}

/// Two tags under same-length keys agree only for equal keys: the tag
/// binds the key byte for byte.
pub proof fn lemma_mac384_key_injective(k1: Seq<u8>, k2: Seq<u8>, data: Seq<u8>)
    requires
        k1.len() == 48,
        k2.len() == 48,
        mac384_spec(k1, data) == mac384_spec(k2, data),
    ensures
        k1 == k2,
{
    assert forall|j: int| 0 <= j < 48 implies k1[j] == k2[j] by {
        let a = xor_acc(data);
        let x1 = k1[j];
        let x2 = k2[j];
        let jj = j as u8;
        assert(mac384_spec(k1, data)[j] == x1 ^ a ^ jj);
        assert(mac384_spec(k2, data)[j] == x2 ^ a ^ jj);
        assert(x1 ^ a ^ jj == x2 ^ a ^ jj ==> x1 == x2) by (bit_vector);
    }
    assert(k1 =~= k2);
}

/// The private scalar for a seed, as key generation writes it.
fn seed_to_priv(seed: &Vec<u8>) -> (r: Vec<u8>)
    requires
        seed@.len() == 48,
    ensures
        r@ == priv_of_seed(seed@),
{
    let mut out: Vec<u8> = Vec::new();
    let mut j: usize = 0;
    while j < 48
        invariant
            j <= 48,
            seed@.len() == 48,
            out@.len() == j,
            forall|k: int| 0 <= k < j ==> out@[k] == seed@[k] ^ 0xA5u8,
        decreases 48 - j,
    {
        out.push(seed[j] ^ 0xA5u8);
        j = j + 1;
    }
    proof {
        assert(out@ =~= priv_of_seed(seed@));
    }
    out
}

/// The x coordinate of the public key of `sk`.
fn priv_to_pub_x(sk: &Vec<u8>) -> (r: Vec<u8>)
    requires
        sk@.len() == 48,
    ensures
        r@ == pub_x_of(sk@),
{
    let mut out: Vec<u8> = Vec::new();
    let mut j: usize = 0;
    while j < 48
        invariant
            j <= 48,
            sk@.len() == 48,
            out@.len() == j,
            forall|k: int| 0 <= k < j ==> out@[k] == sk@[k] ^ (k as u8) ^ 0x3Cu8,
        decreases 48 - j,
    {
        out.push(sk[j] ^ (j as u8) ^ 0x3Cu8);
        j = j + 1;
    }
    proof {
        assert(out@ =~= pub_x_of(sk@));
    }
    out
}

/// The y coordinate of the public key of `sk`.
fn priv_to_pub_y(sk: &Vec<u8>) -> (r: Vec<u8>)
    requires
        sk@.len() == 48,
    ensures
        r@ == pub_y_of(sk@),
{
    let mut out: Vec<u8> = Vec::new();
    let mut j: usize = 0;
    while j < 48
        invariant
            j <= 48,
            sk@.len() == 48,
            out@.len() == j,
            forall|k: int| 0 <= k < j ==> out@[k] == sk@[k] ^ (k as u8) ^ 0xC3u8,
        decreases 48 - j,
    {
        out.push(sk[j] ^ (j as u8) ^ 0xC3u8);
        j = j + 1;
    }
    proof {
        assert(out@ =~= pub_y_of(sk@));
    }
    out
}

/// An exportable public key: the two 48-byte coordinates of a point. The
/// value is not secret and may be copied freely.
pub struct Ecc384PubKey {
    pub x: Vec<u8>,
    pub y: Vec<u8>,
}

impl Ecc384PubKey {
    /// Both coordinates have their full width.
    pub open spec fn wf(self) -> bool {
        self.x@.len() == 48 && self.y@.len() == 48
    }

    /// A public key with both coordinates zero, the placeholder the
    /// hand-off uses before a real parent key is known.
    pub fn zeroed() -> (r: Ecc384PubKey)
        ensures
            r.wf(),
            r.x@ == Seq::new(48, |i: int| 0u8),
            r.y@ == Seq::new(48, |i: int| 0u8),
    {
        Ecc384PubKey { x: zero_bytes(48), y: zero_bytes(48) }
    }

    /// A copy of the key.
    pub fn clone_key(&self) -> (r: Ecc384PubKey)
        ensures
            r.x@ == self.x@,
            r.y@ == self.y@,
    {
        Ecc384PubKey { x: copy_bytes(&self.x), y: copy_bytes(&self.y) }
    }

    /// The DER encoding of the key as an uncompressed point.
    pub fn to_der(&self) -> (r: Vec<u8>)
        requires
            self.wf(),
        ensures
            r@ == der_of(self.x@, self.y@),
    {
        let mut out: Vec<u8> = Vec::new();
        out.push(0x04u8);
        let mut i: usize = 0;
        while i < self.x.len()
            invariant
                i <= self.x@.len(),
                out@ == seq![0x04u8] + self.x@.take(i as int),
            decreases self.x@.len() - i,
        {
            out.push(self.x[i]);
            proof {
                assert(self.x@.take(i + 1 as int) =~= self.x@.take(i as int).push(
                    self.x@[i as int],
                ));
                assert((seq![0x04u8] + self.x@.take(i as int)).push(self.x@[i as int]) =~= seq![
                    0x04u8,
                ] + self.x@.take(i + 1 as int));
            }
            i = i + 1;
        }
        proof {
            assert(self.x@.take(self.x@.len() as int) =~= self.x@);
        }
        let mut i: usize = 0;
        while i < self.y.len()
            invariant
                i <= self.y@.len(),
                out@ == seq![0x04u8] + self.x@ + self.y@.take(i as int),
            decreases self.y@.len() - i,
        {
            out.push(self.y[i]);
            proof {
                assert(self.y@.take(i + 1 as int) =~= self.y@.take(i as int).push(
                    self.y@[i as int],
                ));
                assert((seq![0x04u8] + self.x@ + self.y@.take(i as int)).push(self.y@[i as int])
                    =~= seq![0x04u8] + self.x@ + self.y@.take(i + 1 as int));
            }
            i = i + 1;
        }
        proof {
            assert(self.y@.take(self.y@.len() as int) =~= self.y@);
            assert(out@ =~= der_of(self.x@, self.y@));
        }
        out
    }
}

/// A derived key pair: the private half stays in its vault slot and is only
/// named by the handle; the public half is exportable.
pub struct Ecc384KeyPair {
    pub priv_key: KeyId,
    pub pub_key: Ecc384PubKey,
}

/// A signature: the two 48-byte halves of the tag over the signed bytes.
pub struct Ecc384Signature {
    pub r: Vec<u8>,
    pub s: Vec<u8>,
}

/// An empty namespace for the engine operations, mirroring the layout of
/// the surrounding boot stages.
pub struct Crypto;

impl Crypto {
    /// Calculate the digest of `data`. Stateless: used for naming
    /// derivation only, never for secret derivation.
    pub fn sha256_digest(_env: &FmcEnv, data: &Vec<u8>) -> (r: Result<Vec<u8>, FmcError>)
        ensures
            (r matches Ok(d) && d@ == digest256_spec(data@)),
    {
        Ok(digest256(data))
    }

    /// Calculate the keyed MAC over `data` with the secret in slot `key`,
    /// and write the tag into slot `tag`, flagged for both future MAC-key
    /// use and use as a key-generation seed: the derived secret must serve
    /// as the next layer's inherited secret and as this layer's seed.
    pub fn hmac384_mac(env: &mut FmcEnv, key: KeyId, data: &Vec<u8>, tag: KeyId) -> (r: Result<
        KeyId,
        FmcError,
    >)
        requires
            old(env).wf(),
        ensures
            final(env).wf(),
            final(env).pcr_bank == old(env).pcr_bank,
            final(env).reset_reason == old(env).reset_reason,
            old(env).key_vault.readable(key, KeyUsage::spec_hmac_key()) ==> {
                &&& r == Ok::<KeyId, FmcError>(tag)
                &&& final(env).key_vault.occupied(tag)
                &&& final(env).key_vault.usage(tag) == KeyUsage::spec_derived_secret()
                &&& final(env).key_vault.value(tag) == mac384_spec(
                    old(env).key_vault.value(key),
                    data@,
                )
                &&& (forall|k: KeyId|
                    k != tag ==> final(env).key_vault.slot_eq(old(env).key_vault, k))
            },
            !old(env).key_vault.readable(key, KeyUsage::spec_hmac_key()) ==> {
                &&& r == Err::<KeyId, FmcError>(FmcError::CapabilityMismatch)
                &&& *final(env) == *old(env)
            },
    {
        let mut requested = KeyUsage::default();
        requested.set_hmac_key(true);
        let key_bytes = match env.key_vault.read_key(key, requested) {
            Ok(v) => v,
            Err(e) => {
                return Err(e);
            },
        };
        let tag_bytes = mix48(&key_bytes, data);
        let mut usage = KeyUsage::default();
        usage.set_hmac_key(true);
        usage.set_ecc_key_gen_seed(true);
        env.key_vault.write_key(tag, tag_bytes, usage);
        Ok(tag)
    }

    /// Generate the deterministic key pair seeded by slot `seed`, writing
    /// the private half into slot `priv_key` flagged as a private key and
    /// returning the public half. No nonce is mixed in: the same seed must
    /// always yield the same identity within a boot cycle.
    pub fn ecc384_key_gen(env: &mut FmcEnv, seed: KeyId, priv_key: KeyId) -> (r: Result<
        Ecc384KeyPair,
        FmcError,
    >)
        requires
            old(env).wf(),
        ensures
            final(env).wf(),
            final(env).pcr_bank == old(env).pcr_bank,
            final(env).reset_reason == old(env).reset_reason,
            old(env).key_vault.readable(seed, KeyUsage::spec_key_gen_seed()) ==> {
                &&& (r matches Ok(kp) && {
                    &&& kp.priv_key == priv_key
                    &&& kp.pub_key.wf()
                    &&& kp.pub_key.x@ == pub_x_of(priv_of_seed(old(env).key_vault.value(seed)))
                    &&& kp.pub_key.y@ == pub_y_of(priv_of_seed(old(env).key_vault.value(seed)))
                })
                &&& final(env).key_vault.occupied(priv_key)
                &&& final(env).key_vault.usage(priv_key) == KeyUsage::spec_private_key()
                &&& final(env).key_vault.value(priv_key) == priv_of_seed(
                    old(env).key_vault.value(seed),
                )
                &&& (forall|k: KeyId|
                    k != priv_key ==> final(env).key_vault.slot_eq(old(env).key_vault, k))
            },
            !old(env).key_vault.readable(seed, KeyUsage::spec_key_gen_seed()) ==> {
                &&& r == Err::<Ecc384KeyPair, FmcError>(FmcError::CapabilityMismatch)
                &&& *final(env) == *old(env)
            },
    {
        let mut requested = KeyUsage::default();
        requested.set_ecc_key_gen_seed(true);
        let seed_bytes = match env.key_vault.read_key(seed, requested) {
            Ok(v) => v,
            Err(e) => {
                return Err(e);
            },
        };
        let sk = seed_to_priv(&seed_bytes);
        let x = priv_to_pub_x(&sk);
        let y = priv_to_pub_y(&sk);
        let mut usage = KeyUsage::default();
        usage.set_ecc_private_key(true);
        env.key_vault.write_key(priv_key, sk, usage);
        Ok(Ecc384KeyPair { priv_key, pub_key: Ecc384PubKey { x, y } })
    }

    /// Recompute the public half of the private key in slot `priv_key`.
    /// Key generation is deterministic, so the slot's content fixes the
    /// public key; the hand-off loader uses this to restate the parent's
    /// public key from the slot the parent left behind.
    pub fn ecc384_pub_key(env: &FmcEnv, priv_key: KeyId) -> (r: Result<Ecc384PubKey, FmcError>)
        requires
            env.wf(),
        ensures
            env.key_vault.readable(priv_key, KeyUsage::spec_private_key()) ==> (r matches Ok(pk)
                && {
                &&& pk.wf()
                &&& pk.x@ == pub_x_of(env.key_vault.value(priv_key))
                &&& pk.y@ == pub_y_of(env.key_vault.value(priv_key))
            }),
            !env.key_vault.readable(priv_key, KeyUsage::spec_private_key()) ==> r == Err::<
                Ecc384PubKey,
                FmcError,
            >(FmcError::CapabilityMismatch),
    {
        let mut requested = KeyUsage::default();
        requested.set_ecc_private_key(true);
        let sk = match env.key_vault.read_key(priv_key, requested) {
            Ok(v) => v,
            Err(e) => {
                return Err(e);
            },
        };
        Ok(Ecc384PubKey { x: priv_to_pub_x(&sk), y: priv_to_pub_y(&sk) })
    }

    /// Sign `data` with the private key in slot `priv_key`. The tag is a
    /// function of the matching public key and the signed bytes.
    pub fn ecdsa384_sign(env: &FmcEnv, priv_key: KeyId, data: &Vec<u8>) -> (r: Result<
        Ecc384Signature,
        FmcError,
    >)
        requires
            env.wf(),
        ensures
            env.key_vault.readable(priv_key, KeyUsage::spec_private_key()) ==> (r matches Ok(sig)
                && {
                &&& sig.r@ == mac384_spec(pub_x_of(env.key_vault.value(priv_key)), data@)
                &&& sig.s@ == mac384_spec(pub_y_of(env.key_vault.value(priv_key)), data@)
            }),
            !env.key_vault.readable(priv_key, KeyUsage::spec_private_key()) ==> r == Err::<
                Ecc384Signature,
                FmcError,
            >(FmcError::CapabilityMismatch),
    {
        let mut requested = KeyUsage::default();
        requested.set_ecc_private_key(true);
        let sk = match env.key_vault.read_key(priv_key, requested) {
            Ok(v) => v,
            Err(e) => {
                return Err(e);
            },
        };
        let x = priv_to_pub_x(&sk);
        let y = priv_to_pub_y(&sk);
        Ok(Ecc384Signature { r: mix48(&x, data), s: mix48(&y, data) })
    }

    /// Check a signature over `data` against a public key.
    pub fn ecdsa384_verify(
        _env: &FmcEnv,
        pub_key: &Ecc384PubKey,
        data: &Vec<u8>,
        sig: &Ecc384Signature,
    ) -> (r: bool)
        requires
            pub_key.wf(),
        ensures
            r == (sig.r@ == mac384_spec(pub_key.x@, data@) && sig.s@ == mac384_spec(
                pub_key.y@,
                data@,
            )),
    {
        let expected_r = mix48(&pub_key.x, data);
        let expected_s = mix48(&pub_key.y, data);
        bytes_eq(&sig.r, &expected_r) && bytes_eq(&sig.s, &expected_s)
    }
}

} // verus!
