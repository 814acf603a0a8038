//! Derivation of the per-lock identifier.
//!
//! A lock's identifier is a 32-byte digest over the depositor's 32 identity
//! bytes, the ledger nonce after the lock (8 bytes, little-endian) and the
//! lock's timestamp (8 bytes, little-endian). Reproducing the identifier
//! needs only those three inputs.

use crate::identity::Identity;
use vstd::prelude::*;

verus! {

/// The SHA-256 digest of `data`, as the host ledger's hasher computes it.
pub uninterp spec fn sha256_of(data: Seq<u8>) -> Seq<u8>;

/// Relies on `anchor_lang::solana_program::hash::hash`: a SHA-256 digest,
/// 32 bytes long, a function of the input bytes alone.
#[verifier::external_body]
fn sha256(data: &Vec<u8>) -> (r: [u8; 32])
    ensures
        r@ == sha256_of(data@),
{
    anchor_lang::solana_program::hash::hash(data.as_slice()).to_bytes()
}

/// Byte `k` of the little-endian encoding of `x`.
pub open spec fn le_byte(x: u64, k: u64) -> u8 {
    ((x >> (8 * k)) & 0xff) as u8
}

/// The 8-byte little-endian encoding of `x`.
pub open spec fn u64_le_bytes(x: u64) -> Seq<u8> {
    seq![
        le_byte(x, 0),
        le_byte(x, 1),
        le_byte(x, 2),
        le_byte(x, 3),
        le_byte(x, 4),
        le_byte(x, 5),
        le_byte(x, 6),
        le_byte(x, 7),
    ]
}

/// The 8-byte little-endian encoding of `x`: the encoding of its
/// two's-complement bit pattern.
pub open spec fn i64_le_bytes(x: i64) -> Seq<u8> {
    u64_le_bytes(x as u64)
}

/// The bytes whose digest is a lock's identifier: depositor identity,
/// then nonce, then timestamp, both little-endian.
pub open spec fn lock_message(depositor: Seq<u8>, nonce: u64, timestamp: i64) -> Seq<u8> {
    depositor + u64_le_bytes(nonce) + i64_le_bytes(timestamp)
}

/// Encodes `x` as 8 little-endian bytes.
pub fn u64_to_le(x: u64) -> (r: Vec<u8>)
    ensures
        r@ == u64_le_bytes(x),
{
    let mut v: Vec<u8> = Vec::new();
    v.push((x & 0xff) as u8);
    v.push(((x >> 8) & 0xff) as u8);
    v.push(((x >> 16) & 0xff) as u8);
    v.push(((x >> 24) & 0xff) as u8);
    v.push(((x >> 32) & 0xff) as u8);
    v.push(((x >> 40) & 0xff) as u8);
    v.push(((x >> 48) & 0xff) as u8);
    v.push(((x >> 56) & 0xff) as u8);
    proof {
        assert(le_byte(x, 0) == (x & 0xff) as u8) by (bit_vector);
        assert(v@ =~= u64_le_bytes(x));
    }
    v
}

/// Encodes `x` as 8 little-endian bytes of its two's-complement pattern.
pub fn i64_to_le(x: i64) -> (r: Vec<u8>)
    ensures
        r@ == i64_le_bytes(x),
{
    u64_to_le(#[verifier::truncate] (x as u64))
}

/// Builds the bytes a lock's identifier is derived from.
pub fn lock_message_bytes(user: &Identity, nonce: u64, timestamp: i64) -> (r: Vec<u8>)
    ensures
        r@ == lock_message(user@, nonce, timestamp),
{
    let mut data: Vec<u8> = Vec::new();
    let mut i: usize = 0;
    while i < 32
        invariant
            0 <= i <= 32,
            data@.len() == i,
            forall|j: int| 0 <= j < i ==> data@[j] == user.bytes@[j],
        decreases 32 - i,
    {
        data.push(user.bytes[i]);
        i += 1;
    }
    let mut nonce_bytes = u64_to_le(nonce);
    let mut timestamp_bytes = i64_to_le(timestamp);
    data.append(&mut nonce_bytes);
    data.append(&mut timestamp_bytes);
    proof {
        assert(data@ =~= lock_message(user@, nonce, timestamp));
    }
    data
}

/// Derives a lock's 32-byte identifier from the depositor, the nonce after
/// the lock, and the lock's timestamp.
pub fn derive_lock_id(user: &Identity, nonce: u64, timestamp: i64) -> (r: [u8; 32])
    ensures
        r@ == sha256_of(lock_message(user@, nonce, timestamp)),
{
    let data = lock_message_bytes(user, nonce, timestamp);
    sha256(&data)
}

} // verus!
