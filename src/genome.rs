//! Genomes: drawing a fresh one from outside entropy, and mixing two parents'.
use parity_scale_codec::Encode;
use vstd::prelude::*;

use crate::types::AccountId;

verus! {

/// The outside randomness that one operation sees: the chain's random seed,
/// the block it was drawn at, and the index of the operation in its block.
#[derive(Clone, Copy, Debug, PartialEq, Eq)]
pub struct Entropy {
    pub seed: [u8; 32],
    pub block_number: u64,
    pub extrinsic_index: Option<u32>,
}

/// The `n` low bytes of `x`, least significant first.
pub open spec fn le_bytes(x: nat, n: nat) -> Seq<u8>
    decreases n,
{
    if n == 0 {
        seq![]
    } else {
        seq![(x % 256) as u8] + le_bytes(x / 256, (n - 1) as nat)
    }
}

/// The SCALE encoding of an optional `u32`: a tag byte, then the value.
pub open spec fn option_u32_bytes(o: Option<u32>) -> Seq<u8> {
    match o {
        Some(v) => seq![1u8] + le_bytes(v as nat, 4),
        None => seq![0u8],
    }
}

/// The bytes that are hashed to draw a genome for `sender`: the SCALE
/// encoding of `((seed, block_number), sender, extrinsic_index)`.
pub open spec fn payload_bytes(e: Entropy, sender: AccountId) -> Seq<u8> {
    e.seed@ + le_bytes(e.block_number as nat, 8) + le_bytes(sender as nat, 8) + option_u32_bytes(
        e.extrinsic_index,
    )
}

/// The 128-bit BLAKE2b digest of `data`.
pub uninterp spec fn blake2_128_of(data: Seq<u8>) -> Seq<u8>;

/// The genome drawn for `sender` under the entropy `e`.
pub open spec fn random_dna(sender: AccountId, e: Entropy) -> Seq<u8> {
    blake2_128_of(payload_bytes(e, sender))
}

/// One byte of a child: the bits of `a` where `selector` has a one, the bits
/// of `b` where it has a zero.
pub open spec fn mixed_byte(selector: u8, a: u8, b: u8) -> u8 {
    (selector & a) | (!selector & b)
}

/// The child genome of `dna1` and `dna2` under `selector`, byte by byte.
pub open spec fn mixed_dna(selector: Seq<u8>, dna1: Seq<u8>, dna2: Seq<u8>) -> Seq<u8> {
    Seq::new(16, |i: int| mixed_byte(selector[i], dna1[i], dna2[i]))
}

/// Relies on parity-scale-codec's `Encode` for a tuple: the fields' encodings
/// in order; a byte array as its bytes, integers little-endian, an `Option`
/// as a tag byte (0 or 1) followed by the value.
#[verifier::external_body]
fn encode_payload(e: &Entropy, sender: AccountId) -> (r: Vec<u8>)
    ensures
        r@ == payload_bytes(*e, sender),
{
    ((e.seed, e.block_number), sender, e.extrinsic_index).encode()
}

/// Relies on sp_io::hashing::blake2_128: the 128-bit BLAKE2b digest of the data.
#[verifier::external_body]
fn blake2_128(data: &Vec<u8>) -> (r: [u8; 16])
    ensures
        r@ == blake2_128_of(data@),
{
    sp_io::hashing::blake2_128(data.as_slice())
}

/// Draws the genome of a new kitty for `sender` from the entropy `e`.
pub fn random_value(sender: AccountId, e: &Entropy) -> (r: [u8; 16])
    ensures
        r@ == random_dna(sender, *e),
{
    let payload = encode_payload(e, sender);
    blake2_128(&payload)
}

/// Mixes two parents' genomes: each bit comes from `dna1` where the
/// selector has a one, from `dna2` where it has a zero.
pub fn mix_dna(selector: &[u8; 16], dna1: &[u8; 16], dna2: &[u8; 16]) -> (r: [u8; 16])
    ensures
        r@ == mixed_dna(selector@, dna1@, dna2@),
{
    let mut child = [0u8; 16];
    let mut i: usize = 0;
    while i < 16
        invariant
            i <= 16,
            forall|j: int| 0 <= j < i ==> child[j] == mixed_byte(selector[j], dna1[j], dna2[j]),
        decreases 16 - i,
    {
        child[i] = (selector[i] & dna1[i]) | (!selector[i] & dna2[i]);
        i = i + 1;
    }
    assert(child@ =~= mixed_dna(selector@, dna1@, dna2@));
    child
}

} // verus!
