//! The calls that the registry makes into outside crates.

use parity_codec::Encode;
use rand::Rng;
use vstd::prelude::*;

verus! {

/// The eight little-endian bytes of a `u64`.
pub open spec fn u64_le_bytes(x: u64) -> Seq<u8> {
    seq![
        (x % 0x100) as u8,
        ((x / 0x100) % 0x100) as u8,
        ((x / 0x1_0000) % 0x100) as u8,
        ((x / 0x100_0000) % 0x100) as u8,
        ((x / 0x1_0000_0000) % 0x100) as u8,
        ((x / 0x100_0000_0000) % 0x100) as u8,
        ((x / 0x1_0000_0000_0000) % 0x100) as u8,
        ((x / 0x100_0000_0000_0000) % 0x100) as u8,
    ]
}

/// The encoding of the triple `(seed, sender, nonce)`: the 32 bytes of the
/// seed, then each integer in eight little-endian bytes.
pub open spec fn seed_sender_nonce_encoding(seed: Seq<u8>, sender: u64, nonce: u64) -> Seq<u8> {
    seed + u64_le_bytes(sender) + u64_le_bytes(nonce)
}

/// `parity_codec::Encode::encode` of the tuple `(seed, &sender, nonce)`.
/// The codec writes a tuple as its fields one after the other, a byte array
/// as its bytes, and a `u64` as eight little-endian bytes; the contract
/// states that concatenation.
#[verifier::external_body]
pub(crate) fn encode_seed_sender_nonce(seed: &[u8; 32], sender: u64, nonce: u64) -> (r: Vec<u8>)
    ensures
        r@ == seed_sender_nonce_encoding(seed@, sender, nonce),
{
    (seed, &sender, nonce).encode()
}

/// The unkeyed BLAKE2b digest of 32 bytes of `data`.
pub uninterp spec fn blake2b_256(data: Seq<u8>) -> Seq<u8>;

/// `blake2_rfc::blake2b::blake2b(32, &[], data)`: its 32 result bytes are
/// named by `blake2b_256` and nothing more is claimed of them.
#[verifier::external_body]
pub(crate) fn blake2_256(data: &[u8]) -> (r: [u8; 32])
    ensures
        r@ == blake2b_256(data@),
{
    let mut out = [0u8; 32];
    out.copy_from_slice(blake2_rfc::blake2b::blake2b(32, &[], data).as_bytes());
    out
}

/// `rand::thread_rng().gen_range(0, bound)`: some number below `bound`,
/// drawn at random. The call panics when `bound` is zero, which `requires`
/// leaves out; nothing is claimed of which number comes back.
#[verifier::external_body]
pub(crate) fn random_below(bound: u64) -> (r: u64)
    requires
        bound > 0,
    ensures
        r < bound,
{
    rand::thread_rng().gen_range(0, bound)
}

} // verus!
