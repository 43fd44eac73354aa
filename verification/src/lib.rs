//! Hash primitives for a CryptoNote-style chain: the CryptoNote variant of
//! Keccak-256 (original `0x01` padding, not the SHA3 standard's `0x06`), and
//! BLAKE2b with a variable output length, unkeyed or keyed per RFC 7693.
//!
//! Every call is a pure, stateless transformation: the digest depends on the
//! inputs alone, and the returned bytes are a fresh buffer owned by the
//! caller. The only failures are caller contract violations — an output
//! length outside 1..=64 or a key longer than 64 bytes — and those are
//! reported as `HashError` values, never as panics.

use vstd::prelude::*;

use tiny_keccak::Hasher;
use tiny_keccak::Keccak;

verus! {

/// The error a caller gets back when a hash parameter is out of contract.
#[derive(Clone, Copy, Debug, PartialEq, Eq, Structural)]
pub enum HashError {
    /// The requested digest length is outside BLAKE2b's valid range of 1 to 64 bytes.
    InvalidOutputLength,
    /// The supplied key is longer than BLAKE2b's maximum of 64 bytes.
    OversizedKey,
}

/// A requested BLAKE2b digest length is valid when it lies between 1 and 64 bytes.
pub open spec fn valid_out_len(out_len: usize) -> bool {
    1 <= out_len <= 64
}

/// A BLAKE2b key is valid when it is at most 64 bytes long.
pub open spec fn valid_key_len(key_len: nat) -> bool {
    key_len <= 64
}

/// The 32-byte Keccak-256 digest of `data`, in the CryptoNote variant: the
/// Keccak-f[1600] sponge at rate 1088 / capacity 512 with the original `0x01`
/// domain-separation byte. A function of `data` alone.
pub uninterp spec fn keccak256_of(data: Seq<u8>) -> Seq<u8>;

/// The `out_len`-byte BLAKE2b digest of `data` under `key`, per RFC 7693:
/// `out_len` and the key length are part of the parameter block, and a
/// non-empty key is zero-padded and compressed as the first block. An empty
/// `key` gives the unkeyed hash. A function of the three arguments alone.
pub uninterp spec fn blake2b_of(data: Seq<u8>, key: Seq<u8>, out_len: nat) -> Seq<u8>;

/// Relies on tiny_keccak: `Keccak::v256()` builds the sponge state at rate
/// 1088 with delimiter byte `0x01`, `update` absorbs the input, and
/// `finalize` pads, squeezes and fills the whole 32-byte output buffer.
#[verifier::external_body]
fn keccak256_call(data: &[u8]) -> (r: Vec<u8>)
    ensures
        r@ == keccak256_of(data@),
        r@.len() == 32,
{
    let mut sponge = Keccak::v256();
    let mut output = [0u8; 32];
    sponge.update(data);
    sponge.finalize(&mut output);
    output.to_vec()
}

/// Relies on blake2b_simd: `Params::hash_length` sets the digest-length
/// parameter and panics outside 1..=64; `Params::key` sets the key block and
/// panics over 64 bytes, and its documentation states that an empty key is
/// equivalent to having no key at all; `Params::hash` returns a digest of
/// exactly `hash_length` bytes, exposed by `Hash::as_bytes`.
#[verifier::external_body]
fn blake2b_call(data: &[u8], out_len: usize, key: &[u8]) -> (r: Vec<u8>)
    requires
        valid_out_len(out_len),
        valid_key_len(key@.len()),
    ensures
        r@ == blake2b_of(data@, key@, out_len as nat),
        r@.len() == out_len,
{
    blake2b_simd::Params::new().hash_length(out_len).key(key).hash(data).as_bytes().to_vec()
}

/// Keccak-256 of `data`, CryptoNote variant. Total over all byte sequences,
/// the empty one included; the digest is exactly 32 bytes and depends on
/// `data` alone.
pub fn keccak256(data: &[u8]) -> (r: Vec<u8>)
    ensures
        r@ == keccak256_of(data@),
        r@.len() == 32,
{
    keccak256_call(data)
}

/// Unkeyed BLAKE2b of `data` with digest length `out_len`. Succeeds exactly
/// when `out_len` lies in 1..=64, for every `data` including the empty one,
/// and then returns exactly `out_len` bytes; `out_len` is a parameter of the
/// hash itself, not a truncation. Any other `out_len` is rejected with
/// `HashError::InvalidOutputLength`.
pub fn blake2b_hash(data: &[u8], out_len: usize) -> (r: Result<Vec<u8>, HashError>)
    ensures
        r is Ok <==> valid_out_len(out_len),
        r matches Ok(digest) ==> digest@ == blake2b_of(data@, Seq::<u8>::empty(), out_len as nat)
            && digest@.len() == out_len,
        !valid_out_len(out_len) ==> (r matches Err(e) && e == HashError::InvalidOutputLength),
{
    if out_len < 1 || out_len > 64 {
        return Err(HashError::InvalidOutputLength);
    }
    let empty_key: Vec<u8> = Vec::new();
    Ok(blake2b_call(data, out_len, empty_key.as_slice()))
}

/// Keyed BLAKE2b of `data` with digest length `out_len`, per RFC 7693 keyed
/// mode. Succeeds exactly when `out_len` lies in 1..=64 and `key` is at most
/// 64 bytes, for every `data` including the empty one, and then returns
/// exactly `out_len` bytes. An out-of-range `out_len` is rejected with
/// `HashError::InvalidOutputLength`, checked first; an oversized key with
/// `HashError::OversizedKey`. An empty key gives the unkeyed digest.
pub fn blake2b_keyed(data: &[u8], out_len: usize, key: &[u8]) -> (r: Result<
    Vec<u8>,
    HashError,
>)
    ensures
        r is Ok <==> valid_out_len(out_len) && valid_key_len(key@.len()),
        r matches Ok(digest) ==> digest@ == blake2b_of(data@, key@, out_len as nat)
            && digest@.len() == out_len,
        !valid_out_len(out_len) ==> (r matches Err(e) && e == HashError::InvalidOutputLength),
        valid_out_len(out_len) && !valid_key_len(key@.len()) ==> (r matches Err(e) && e
            == HashError::OversizedKey),
{
    if out_len < 1 || out_len > 64 {
        return Err(HashError::InvalidOutputLength);
    }
    if key.len() > 64 {
        return Err(HashError::OversizedKey);
    }
    Ok(blake2b_call(data, out_len, key))
}

/// Keccak-256 is deterministic: the digest is a function of the input bytes
/// alone, so equal inputs give equal digests, whatever call, thread or
/// process computed them.
pub proof fn lemma_keccak256_deterministic(d1: Seq<u8>, d2: Seq<u8>)
    requires
        d1 == d2,
    ensures
        keccak256_of(d1) == keccak256_of(d2),
{
}

/// BLAKE2b is deterministic: the digest is a function of the input bytes, the
/// key bytes and the requested length alone, so equal parameters give equal
/// digests, whatever call, thread or process computed them.
pub proof fn lemma_blake2b_deterministic(
    d1: Seq<u8>,
    k1: Seq<u8>,
    n1: nat,
    d2: Seq<u8>,
    k2: Seq<u8>,
    n2: nat,
)
    requires
        d1 == d2,
        k1 == k2,
        n1 == n2,
    ensures
        blake2b_of(d1, k1, n1) == blake2b_of(d2, k2, n2),
{
}

} // verus!
