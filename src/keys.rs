//! Key derivation: the Ed25519 public key of a seed, the 64-byte expanded private-key
//! encoding of the same seed, and the recovery of the public key from that encoding.
use vstd::prelude::*;
use curve25519_dalek::constants::ED25519_BASEPOINT_POINT;
use curve25519_dalek::scalar::Scalar;
use ed25519_dalek::SigningKey;
use sha2::Digest;

verus! {

/// The SHA-512 digest of `data`.
pub uninterp spec fn sha512_digest(data: Seq<u8>) -> Seq<u8>;

/// The compressed Edwards encoding of `s · B`, where `s` is the integer whose
/// little-endian bytes are `scalar_bytes`, reduced modulo the group order, and `B` is
/// the Ed25519 base point.
pub uninterp spec fn base_point_times(scalar_bytes: Seq<u8>) -> Seq<u8>;

/// Byte `i` of the clamped scalar taken from the low 32 bytes of `h`: the lowest three
/// bits of byte 0 cleared, the top bit of byte 31 cleared and its bit 6 set.
pub open spec fn clamped_byte(h: Seq<u8>, i: int) -> u8 {
    if i == 0 {
        h[0] & 0xf8
    } else if i == 31 {
        (h[31] & 0x7f) | 0x40
    } else {
        h[i]
    }
}

/// The clamped scalar encoding taken from the low 32 bytes of `h`.
pub open spec fn clamp_scalar(h: Seq<u8>) -> Seq<u8> {
    Seq::new(32, |i: int| clamped_byte(h, i))
}

/// The expanded private key of a seed: its SHA-512 digest with the low 32 bytes clamped
/// and the high 32 bytes kept as they are.
pub open spec fn expanded_key_of(seed: Seq<u8>) -> Seq<u8> {
    let h = sha512_digest(seed);
    Seq::new(64, |i: int| if i < 32 { clamped_byte(h, i) } else { h[i] })
}

/// The Ed25519 public key of a seed: the base point times the clamped low half of the
/// seed's SHA-512 digest.
pub open spec fn public_key_of(seed: Seq<u8>) -> Seq<u8> {
    base_point_times(clamp_scalar(sha512_digest(seed)))
}

/// The public key held by an expanded key: nothing unless it has exactly 64 bytes, else
/// the base point times its first 32 bytes.
pub open spec fn recovered_public_key(expanded: Seq<u8>) -> Option<Seq<u8>> {
    if expanded.len() == 64 {
        Some(base_point_times(expanded.subrange(0, 32)))
    } else {
        None
    }
}

/// Relies on sha2::Sha512::digest: the 64-byte SHA-512 digest, which depends on the
/// input bytes alone.
#[verifier::external_body]
fn sha512(data: &[u8; 32]) -> (r: [u8; 64])
    ensures
        r@ == sha512_digest(data@),
{
    let digest = sha2::Sha512::digest(data);
    let mut out = [0u8; 64];
    out.copy_from_slice(&digest);
    out
}

/// Relies on curve25519_dalek's Scalar::from_bytes_mod_order, the product of that scalar
/// with ED25519_BASEPOINT_POINT, and EdwardsPoint::compress: the encoding depends on the
/// input bytes alone.
#[verifier::external_body]
fn base_point_times_bytes(scalar_bytes: [u8; 32]) -> (r: [u8; 32])
    ensures
        r@ == base_point_times(scalar_bytes@),
{
    let scalar = Scalar::from_bytes_mod_order(scalar_bytes);
    (scalar * ED25519_BASEPOINT_POINT).compress().to_bytes()
}

/// Relies on ed25519_dalek's SigningKey::from_bytes, SigningKey::verifying_key and
/// VerifyingKey::to_bytes. Their source hashes the seed with sha2's Sha512, clamps the
/// low 32 bytes of the digest (clamp_integer), reduces them with
/// Scalar::from_bytes_mod_order, multiplies the base point (EdwardsPoint::mul_base) and
/// compresses the result.
#[verifier::external_body]
pub(crate) fn derive_public_key(seed: &[u8; 32]) -> (r: [u8; 32])
    ensures
        r@ == public_key_of(seed@),
{
    SigningKey::from_bytes(seed).verifying_key().to_bytes()
}

/// Builds the expanded private key of a seed: the seed's SHA-512 digest with its first
/// 32 bytes clamped as an Ed25519 scalar.
pub fn create_meshcore_private_key(seed: &[u8; 32]) -> (r: [u8; 64])
    ensures
        r@ == expanded_key_of(seed@),
{
    let mut key = sha512(seed);
    let low = key[0] & 0xf8;
    let high = (key[31] & 0x7f) | 0x40;
    key[0] = low;
    key[31] = high;
    assert(key@ =~= expanded_key_of(seed@));
    key
}

/// Recovers the public key from an expanded private key: none unless the input has
/// exactly 64 bytes, else the base point times the scalar in its first 32 bytes.
pub fn extract_public_key_from_meshcore_key(private_key_bytes: &[u8]) -> (r: Option<[u8; 32]>)
    ensures
        match r {
            Some(k) => recovered_public_key(private_key_bytes@) == Some(k@),
            None => recovered_public_key(private_key_bytes@) is None,
        },
{
    if private_key_bytes.len() != 64 {
        return None;
    }
    let mut scalar_bytes = [0u8; 32];
    let mut i: usize = 0;
    while i < 32
        invariant
            private_key_bytes@.len() == 64,
            i <= 32,
            forall|j: int| 0 <= j < i ==> scalar_bytes@[j] == private_key_bytes@[j],
        decreases 32 - i,
    {
        scalar_bytes[i] = private_key_bytes[i];
        i = i + 1;
    }
    assert(scalar_bytes@ =~= private_key_bytes@.subrange(0, 32));
    Some(base_point_times_bytes(scalar_bytes))
}

/// Checks that an expanded private key has the expected shape: exactly 64 bytes from
/// whose first half a public key can be derived (which holds for any 64 bytes).
pub fn validate_meshcore_key_format(private_key_bytes: &[u8]) -> (r: bool)
    ensures
        r == (private_key_bytes@.len() == 64),
{
    if private_key_bytes.len() != 64 {
        return false;
    }
    extract_public_key_from_meshcore_key(private_key_bytes).is_some()
}

/// Recovering the public key from the expanded private key of a seed gives the seed's
/// Ed25519 public key, for every 32-byte seed.
pub proof fn lemma_recover_expanded_is_public_key(seed: Seq<u8>)
    requires
        seed.len() == 32,
    ensures
        recovered_public_key(expanded_key_of(seed)) == Some(public_key_of(seed)),
{
    let h = sha512_digest(seed);
    assert(expanded_key_of(seed).subrange(0, 32) =~= clamp_scalar(h));
}

} // verus!
