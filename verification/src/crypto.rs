//! Key generation, signing and verification.
//!
//! A key pair is a 32-byte secret drawn from the operating system's entropy
//! source together with a 32-byte tag, the SHA3-256 digest of the secret.
//! The tag is a one-way checksum of the secret, not a verification key:
//! signing and verifying both use the secret.

use vstd::prelude::*;
use vstd::pervasive::VecAdditionalExecFns;

pub use crate::codec::{
    key_pair_from_json, key_pair_to_json, signature_from_base64, signature_to_base64, DecodeError,
};

use hmac::Mac;
use rand::RngCore;
use sha3::Digest;

verus! {

/// Secure randomness was unavailable; key generation cannot proceed and must
/// not fall back to a weaker source.
#[derive(Clone, Copy, Debug, PartialEq, Eq)]
pub struct EntropyError;

/// A symmetric key pair: a 32-byte secret and the SHA3-256 digest of that
/// secret. The digest is a public, non-secret integrity checksum of the
/// secret with no verification authority of its own; signing and verifying
/// both take the secret.
#[derive(Debug)]
pub struct KeyPair {
    pub public_key: Vec<u8>,
    pub private_key: Vec<u8>,
}

impl KeyPair {
    /// What `generate_key_pair` establishes: both buffers hold 32 bytes and
    /// the public half is the digest of the secret.
    pub open spec fn wf(&self) -> bool {
        &&& self.private_key@.len() == 32
        &&& self.public_key@.len() == 32
        &&& self.public_key@ == sha3_256_of(self.private_key@)
    }

    /// Overwrite the secret bytes with zeroes, bounding their exposure once
    /// the pair is no longer needed. The public checksum is left as it is.
    pub fn wipe(&mut self)
        ensures
            final(self).private_key@.len() == old(self).private_key@.len(),
            forall|i: int|
                0 <= i < final(self).private_key@.len() ==> final(self).private_key@[i] == 0,
            final(self).public_key == old(self).public_key,
    {
        let n = self.private_key.len();
        let mut i: usize = 0;
        while i < n
            invariant
                i <= n,
                n == self.private_key@.len(),
                self.public_key == old(self).public_key,
                forall|j: int| 0 <= j < i ==> self.private_key@[j] == 0,
            decreases n - i,
        {
            self.private_key.set(i, 0u8);
            i += 1;
        }
    }
}

/// The digest that SHA3-256 assigns to a byte sequence. The function itself
/// is left unspecified; the library only relies on it being a function of
/// its input.
pub uninterp spec fn sha3_256_of(data: Seq<u8>) -> Seq<u8>;

/// Relies on sha3::Sha3_256 through digest's Digest::digest: the 32-byte
/// SHA3-256 digest of the input, determined by the input bytes alone.
#[verifier::external_body]
fn sha3_256_digest(data: &[u8]) -> (r: Vec<u8>)
    ensures
        r@ == sha3_256_of(data@),
        r@.len() == 32,
{
    sha3::Sha3_256::digest(data).to_vec()
}

/// SHA3-256 digest of `data`; always 32 bytes.
pub fn hash(data: &[u8]) -> (r: Vec<u8>)
    ensures
        r@ == sha3_256_of(data@),
        r@.len() == 32,
{
    sha3_256_digest(data)
}

/// The tag that HMAC-SHA3-256 assigns to a message under a key. Left
/// unspecified: the library relies only on it being a function of the key
/// and the message.
pub uninterp spec fn hmac_sha3_256_of(key: Seq<u8>, message: Seq<u8>) -> Seq<u8>;

/// Relies on hmac's Hmac over sha3::Sha3_256 (Mac::new_from_slice, update,
/// finalize): the 32-byte HMAC-SHA3-256 tag of the message under the key,
/// determined by the two inputs alone. new_from_slice accepts a key of any
/// length by the HMAC construction, so the unwrap cannot fail.
#[verifier::external_body]
fn hmac_sha3_256_compute(key: &[u8], message: &[u8]) -> (r: Vec<u8>)
    ensures
        r@ == hmac_sha3_256_of(key@, message@),
        r@.len() == 32,
{
    let mut mac = <hmac::Hmac<sha3::Sha3_256> as Mac>::new_from_slice(key).unwrap();
    mac.update(message);
    mac.finalize().into_bytes().to_vec()
}

/// Relies on rand_core's OsRng (RngCore::try_fill_bytes): fills the buffer
/// from the operating system's entropy source and reports whether the draw
/// succeeded. Nothing is promised of the bytes themselves.
#[verifier::external_body]
fn fill_from_os_entropy(dest: &mut Vec<u8>) -> (ok: bool)
    ensures
        final(dest)@.len() == old(dest)@.len(),
{
    rand::rngs::OsRng.try_fill_bytes(dest.as_mut_slice()).is_ok()
}

/// Build the key pair that belongs to a given secret: the secret as handed
/// in, and its SHA3-256 digest as the public checksum. Total: every secret
/// has exactly one pair.
pub fn key_pair_from_secret(secret: Vec<u8>) -> (kp: KeyPair)
    ensures
        kp.private_key@ == secret@,
        kp.public_key@ == sha3_256_of(secret@),
        kp.public_key@.len() == 32,
{
    let public_key = hash(secret.as_slice());
    KeyPair { public_key, private_key: secret }
}

/// Draw a fresh 32-byte secret and derive its public checksum. Fails only
/// when the entropy source does; no weaker source is consulted instead.
pub fn generate_key_pair() -> (r: Result<KeyPair, EntropyError>)
    ensures
        r matches Ok(kp) ==> kp.wf(),
{
    let mut secret: Vec<u8> = Vec::new();
    let mut i: usize = 0;
    while i < 32
        invariant
            secret@.len() == i,
            i <= 32,
        decreases 32 - i,
    {
        secret.push(0u8);
        i += 1;
    }
    if !fill_from_os_entropy(&mut secret) {
        return Err(EntropyError);
    }
    Ok(key_pair_from_secret(secret))
}

/// Whether a tag is the one that verification recomputes for this key and
/// message; `verify_signature` returns exactly this.
pub open spec fn verify_accepts(key: Seq<u8>, message: Seq<u8>, tag: Seq<u8>) -> bool {
    tag == hmac_sha3_256_of(key, message)
}

/// Compute the HMAC-SHA3-256 tag of `message` under `private_key`; always
/// 32 bytes, a pure function of the two inputs.
pub fn sign_message(message: &[u8], private_key: &[u8]) -> (r: Vec<u8>)
    ensures
        r@ == hmac_sha3_256_of(private_key@, message@),
        r@.len() == 32,
{
    hmac_sha3_256_compute(private_key, message)
}

proof fn lemma_u8_or_zero(x: u8, y: u8)
    ensures
        ((x | y) == 0) <==> (x == 0 && y == 0),
{
    assert(((x | y) == 0) <==> (x == 0 && y == 0)) by (bit_vector);
}

proof fn lemma_u8_xor_zero(x: u8, y: u8)
    ensures
        ((x ^ y) == 0) <==> (x == y),
{
    assert(((x ^ y) == 0) <==> (x == y)) by (bit_vector);
}

/// Byte-wise comparison whose running time over equal-length inputs does not
/// depend on where the first difference lies: every byte is inspected and
/// folded into an accumulator, with no early exit.
fn constant_time_eq(a: &[u8], b: &[u8]) -> (r: bool)
    ensures
        r == (a@ == b@),
{
    if a.len() != b.len() {
        return false;
    }
    let n = a.len();
    let mut diff: u8 = 0;
    let mut i: usize = 0;
    proof {
        assert(a@.subrange(0, 0) =~= b@.subrange(0, 0));
    }
    while i < n
        invariant
            i <= n,
            n == a@.len(),
            a@.len() == b@.len(),
            (diff == 0) <==> (a@.subrange(0, i as int) == b@.subrange(0, i as int)),
        decreases n - i,
    {
        let byte_diff = a[i] ^ b[i];
        proof {
            lemma_u8_or_zero(diff, a@[i as int] ^ b@[i as int]);
            lemma_u8_xor_zero(a@[i as int], b@[i as int]);
            if diff == 0 && a@[i as int] == b@[i as int] {
                assert(a@.subrange(0, i + 1) =~= b@.subrange(0, i + 1));
            }
            if a@.subrange(0, i + 1) == b@.subrange(0, i + 1) {
                assert(a@.subrange(0, i as int) =~= a@.subrange(0, i + 1).subrange(0, i as int));
                assert(b@.subrange(0, i as int) =~= b@.subrange(0, i + 1).subrange(0, i as int));
                assert(a@[i as int] == a@.subrange(0, i + 1)[i as int]);
            }
        }
        diff = diff | byte_diff;
        i += 1;
    }
    proof {
        if a@.subrange(0, n as int) == b@.subrange(0, n as int) {
            assert(a@ =~= a@.subrange(0, n as int));
            assert(b@ =~= b@.subrange(0, n as int));
        }
        if a@ == b@ {
            assert(a@.subrange(0, n as int) =~= b@.subrange(0, n as int));
        }
    }
    diff == 0
}

/// Recompute the tag for `message` under `private_key` and compare it with
/// `signature` in constant time. True exactly when `signature` is that tag.
pub fn verify_signature(message: &[u8], signature: &[u8], private_key: &[u8]) -> (r: bool)
    ensures
        r == verify_accepts(private_key@, message@, signature@),
{
    let expected = hmac_sha3_256_compute(private_key, message);
    constant_time_eq(signature, expected.as_slice())
}

/// Signing is deterministic: any two tags computed for the same key and
/// message are byte-identical.
pub proof fn lemma_sign_deterministic(key: Seq<u8>, message: Seq<u8>, t1: Seq<u8>, t2: Seq<u8>)
    requires
        t1 == hmac_sha3_256_of(key, message),
        t2 == hmac_sha3_256_of(key, message),
    ensures
        t1 == t2,
{
}

/// A tag produced by signing a message always verifies for the same key and
/// message.
pub proof fn lemma_sign_then_verify(key: Seq<u8>, message: Seq<u8>)
    ensures
        verify_accepts(key, message, hmac_sha3_256_of(key, message)),
{
}

} // verus!
