//! Certificate naming material: pure functions of a public key, all routed
//! through the digest primitive.
//!
//! The subject serial number is the hex encoding of the digest of the
//! key's DER form; the subject key identifier is the first 20 digest
//! bytes; the certificate serial number is the same 20 bytes with the top
//! bit of the first byte forced clear, so the value reads as a
//! non-negative integer under certificate serial-number encoding rules.
//! The two 20-byte values are distinct derivations on purpose: they fill
//! different certificate fields.

use vstd::prelude::*;

use crate::crypto::{der_of, digest256_spec, Crypto, Ecc384PubKey};
use crate::error::FmcError;
use crate::fmc_env::FmcEnv;

verus! {

/// The hex alphabet: values 0 to 9 map to the digit characters, values 10
/// to 15 to the upper-case letters.
pub open spec fn hex_char(n: u8) -> u8 {
    if n < 10 {
        (48 + n) as u8
    } else {
        (55 + n) as u8
    }
}

/// The numeric value of a hex character of the fixed alphabet.
pub open spec fn hex_val(c: u8) -> u8 {
    if c < 58 {
        (c - 48) as u8
    } else {
        (c - 55) as u8
    }
}

/// The hex encoding of `s`: two characters per byte, high nibble first.
pub open spec fn hex_of(s: Seq<u8>) -> Seq<u8> {
    Seq::new(
        s.len() * 2,
        |i: int|
            if i % 2 == 0 {
                hex_char((s[i / 2] / 16) as u8)
            } else {
                hex_char((s[i / 2] % 16) as u8)
            },
    )
}

/// The bytes a hex string denotes.
pub open spec fn hex_decode(h: Seq<u8>) -> Seq<u8> {
    Seq::new(h.len() / 2, |k: int| (hex_val(h[2 * k]) * 16 + hex_val(h[2 * k + 1])) as u8)
}

/// Hex encoding loses nothing: decoding the encoding of any byte sequence
/// gives the sequence back.
pub proof fn lemma_hex_round_trip(s: Seq<u8>)
    ensures
        hex_decode(hex_of(s)) == s,
{
    let h = hex_of(s);
    assert forall|k: int| 0 <= k < s.len() implies hex_decode(h)[k] == s[k] by {
        let b = s[k];
        assert(h[2 * k] == hex_char((b / 16) as u8));
        assert(h[2 * k + 1] == hex_char((b % 16) as u8));
        assert(hex_val(hex_char((b / 16) as u8)) == b / 16);
        assert(hex_val(hex_char((b % 16) as u8)) == b % 16);
        assert((b / 16) * 16 + b % 16 == b) by (nonlinear_arith);
    }
    assert(hex_decode(hex_of(s)) =~= s);
}

/// The subject serial number of a public key: the hex encoding of the
/// digest of its DER form.
pub open spec fn subj_sn_spec(x: Seq<u8>, y: Seq<u8>) -> Seq<u8> {
    hex_of(digest256_spec(der_of(x, y)))
}

/// The subject key identifier of a public key: the first 20 bytes of the
/// digest of its DER form.
pub open spec fn subj_key_id_spec(x: Seq<u8>, y: Seq<u8>) -> Seq<u8> {
    digest256_spec(der_of(x, y)).take(20)
}

/// The certificate serial number of a public key: the first 20 digest
/// bytes with the top bit of the first byte forced clear.
pub open spec fn cert_sn_spec(x: Seq<u8>, y: Seq<u8>) -> Seq<u8> {
    let d = digest256_spec(der_of(x, y));
    d.take(20).update(0, (d[0] & 0x7F) as u8)
}

/// A certificate buffer paired with the length of its filled prefix.
pub struct Certificate {
    /// The backing buffer.
    pub buf: Vec<u8>,
    /// How much of the buffer is filled.
    pub len: usize,
}

impl Certificate {
    /// Wrap a buffer and the length of its filled prefix.
    pub fn new(buf: Vec<u8>, len: usize) -> (r: Certificate)
        ensures
            r.buf@ == buf@,
            r.len == len,
    {
        Certificate { buf, len }
    }

    /// The filled prefix, or nothing when the recorded length overruns
    /// the buffer.
    pub fn get(&self) -> (r: Option<Vec<u8>>)
        ensures
            self.len <= self.buf@.len() ==> (r matches Some(v) && v@ == self.buf@.take(
                self.len as int,
            )),
            self.len > self.buf@.len() ==> r is None,
    {
        if self.len <= self.buf.len() {
            let mut out: Vec<u8> = Vec::new();
            let mut i: usize = 0;
            while i < self.len
                invariant
                    i <= self.len,
                    self.len <= self.buf@.len(),
                    out@ == self.buf@.take(i as int),
                decreases self.len - i,
            {
                out.push(self.buf[i]);
                proof {
                    assert(self.buf@.take(i + 1 as int) =~= self.buf@.take(i as int).push(
                        self.buf@[i as int],
                    ));
                }
                i = i + 1;
            }
            Some(out)
        } else {
            None
        }
    }
}

/// An empty namespace for the naming operations, mirroring the layout of
/// the surrounding boot stages.
pub struct X509;

impl X509 {
    /// The subject serial number of `pub_key`: 64 hex characters that
    /// decode back to the 32-byte digest of the key's DER form.
    pub fn subj_sn(env: &FmcEnv, pub_key: &Ecc384PubKey) -> (r: Result<Vec<u8>, FmcError>)
        requires
            pub_key.wf(),
        ensures
            (r matches Ok(sn) && sn@ == subj_sn_spec(pub_key.x@, pub_key.y@)),
            (r matches Ok(sn) ==> sn@.len() == 64),
    {
        let der = pub_key.to_der();
        let digest = match Crypto::sha256_digest(env, &der) {
            Ok(d) => d,
            Err(e) => {
                return Err(e);
            },
        };
        Ok(Self::hex(&digest))
    }

    /// The subject key identifier of `pub_key`: the first 20 bytes of the
    /// digest of the key's DER form.
    pub fn subj_key_id(env: &FmcEnv, pub_key: &Ecc384PubKey) -> (r: Result<Vec<u8>, FmcError>)
        requires
            pub_key.wf(),
        ensures
            (r matches Ok(id) && id@ == subj_key_id_spec(pub_key.x@, pub_key.y@)),
            (r matches Ok(id) ==> id@.len() == 20),
    {
        let digest = match Crypto::sha256_digest(env, &pub_key.to_der()) {
            Ok(d) => d,
            Err(e) => {
                return Err(e);
            },
        };
        let mut out: Vec<u8> = Vec::new();
        let mut i: usize = 0;
        while i < 20
            invariant
                i <= 20,
                digest@.len() == 32,
                out@.len() == i,
                forall|k: int| 0 <= k < i ==> out@[k] == digest@[k],
            decreases 20 - i,
        {
            out.push(digest[i]);
            i = i + 1;
        }
        proof {
            assert(out@ =~= digest@.take(20));
        }
        Ok(out)
    }

    /// The certificate serial number of `pub_key`: the first 20 digest
    /// bytes with the top bit of the first byte forced clear, so the
    /// first byte is always below 128.
    pub fn cert_sn(env: &FmcEnv, pub_key: &Ecc384PubKey) -> (r: Result<Vec<u8>, FmcError>)
        requires
            pub_key.wf(),
        ensures
            (r matches Ok(sn) && sn@ == cert_sn_spec(pub_key.x@, pub_key.y@)),
            (r matches Ok(sn) ==> sn@.len() == 20 && sn@[0] < 128),
    {
        let digest = match Crypto::sha256_digest(env, &pub_key.to_der()) {
            Ok(d) => d,
            Err(e) => {
                return Err(e);
            },
        };
        let mut out: Vec<u8> = Vec::new();
        let first = digest[0] & 0x7F;
        proof {
            let b = digest@[0];
            assert(b & 0x7F < 128) by (bit_vector);
        }
        out.push(first);
        let mut i: usize = 1;
        while i < 20
            invariant
                1 <= i <= 20,
                digest@.len() == 32,
                out@.len() == i,
                out@[0] == (digest@[0] & 0x7F) as u8,
                forall|k: int| 1 <= k < i ==> out@[k] == digest@[k],
            decreases 20 - i,
        {
            out.push(digest[i]);
            i = i + 1;
        }
        proof {
            assert(out@ =~= digest@.take(20).update(0, (digest@[0] & 0x7F) as u8));
        }
        Ok(out)
    }

    /// The hex representation of a 32-byte buffer, high nibble first.
    fn hex(buf: &Vec<u8>) -> (r: Vec<u8>)
        requires
            buf@.len() == 32,
        ensures
            r@ == hex_of(buf@),
    {
        let mut out: Vec<u8> = Vec::new();
        let mut i: usize = 0;
        while i < 32
            invariant
                i <= 32,
                buf@.len() == 32,
                out@.len() == 2 * i,
                forall|k: int|
                    0 <= k < i ==> out@[2 * k] == hex_char((buf@[k] / 16) as u8) && out@[2 * k + 1]
                        == hex_char((buf@[k] % 16) as u8),
            decreases 32 - i,
        {
            let b = buf[i];
            let hi = b / 16;
            let lo = b % 16;
            out.push(if hi < 10 { 48 + hi } else { 55 + hi });
            out.push(if lo < 10 { 48 + lo } else { 55 + lo });
            i = i + 1;
        }
        proof {
            assert forall|j: int| 0 <= j < 64 implies out@[j] == hex_of(buf@)[j] by {
                let k = j / 2;
                if j % 2 == 0 {
                    assert(out@[2 * k] == hex_char((buf@[k] / 16) as u8));
                } else {
                    assert(out@[2 * k + 1] == hex_char((buf@[k] % 16) as u8));
                }
            }
            assert(out@ =~= hex_of(buf@));
        }
        out
    }
}

} // verus!
