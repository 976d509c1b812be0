//! Deterministic genome derivation and combination.
//!
//! A genome is a 16-byte value. A fresh genome is the 128-bit Blake2b digest
//! of the SCALE-encoded payload `(seed, caller, sequence_index)`; a bred
//! genome combines two parent genomes under a selector derived the same way.

use vstd::prelude::*;
use blake2::Digest;
use parity_scale_codec::Encode;

verus! {

/// The SCALE encoding of the payload `(seed, caller, sequence_index)`.
pub uninterp spec fn scale_payload_of(seed: Seq<u8>, caller: u64, sequence_index: u32) -> Seq<u8>;

/// The 128-bit Blake2b digest of `bytes`.
pub uninterp spec fn blake2_128_of(bytes: Seq<u8>) -> Seq<u8>;

/// The genome derived for one call: the 128-bit Blake2b digest of the
/// SCALE-encoded payload. A function of the three inputs and nothing else.
pub open spec fn genome_for(seed: Seq<u8>, caller: u64, sequence_index: u32) -> Seq<u8> {
    blake2_128_of(scale_payload_of(seed, caller, sequence_index))
}

/// One byte of a bred genome: the selector byte masks each parent byte and
/// the two masked bytes are joined.
pub open spec fn child_byte(sel: u8, a: u8, b: u8) -> u8 {
    (sel & a) | (sel & b)
}

/// A bred genome: byte `i` combines byte `i` of the selector and of the two
/// parent genomes.
pub open spec fn child_genome(sel: Seq<u8>, a: Seq<u8>, b: Seq<u8>) -> Seq<u8> {
    Seq::new(sel.len(), |i: int| child_byte(sel[i], a[i], b[i]))
}

/// Relies on `parity_scale_codec::Encode` for `(&Vec<u8>, u64, u32)`: the
/// SCALE encoding of a value depends on that value alone. Encoding a byte
/// vector panics once its length exceeds `u32::MAX`, so the seed is bounded
/// here.
#[verifier::external_body]
pub(crate) fn encode_payload(seed: &Vec<u8>, caller: u64, sequence_index: u32) -> (r: Vec<u8>)
    requires
        seed@.len() <= 0xffff_ffff,
    ensures
        r@ == scale_payload_of(seed@, caller, sequence_index),
{
    (seed, caller, sequence_index).encode()
}

/// Relies on `blake2::Blake2b128` (Blake2b with a 16-byte output): the digest
/// depends on the input bytes alone and is always 16 bytes long.
#[verifier::external_body]
pub(crate) fn blake2_128(bytes: &Vec<u8>) -> (r: Vec<u8>)
    ensures
        r@ == blake2_128_of(bytes@),
        r@.len() == 16,
{
    blake2::Blake2b128::digest(bytes.as_slice()).as_slice().to_vec()
}

/// Combine two parent genomes under a selector, byte by byte.
pub fn combine_genomes(selector: &Vec<u8>, a: &Vec<u8>, b: &Vec<u8>) -> (r: Vec<u8>)
    requires
        selector@.len() == 16,
        a@.len() == 16,
        b@.len() == 16,
    ensures
        r@ == child_genome(selector@, a@, b@),
        r@.len() == 16,
{
    let mut r: Vec<u8> = Vec::new();
    let mut i: usize = 0;
    while i < 16
        invariant
            selector@.len() == 16,
            a@.len() == 16,
            b@.len() == 16,
            i <= 16,
            r@.len() == i,
            forall|j: int| 0 <= j < i ==> r@[j] == child_byte(selector@[j], a@[j], b@[j]),
        decreases 16 - i,
    {
        r.push((selector[i] & a[i]) | (selector[i] & b[i]));
        i = i + 1;
    }
    proof {
        assert(r@ =~= child_genome(selector@, a@, b@));
    }
    r
}

/// Law: the selector never chooses between the parents; every child byte is
/// the selector byte masking the union of the two parent bytes.
pub proof fn lemma_child_byte_masks_union(sel: u8, a: u8, b: u8)
    ensures
        child_byte(sel, a, b) == (sel & (a | b)),
{
    assert(((sel & a) | (sel & b)) == (sel & (a | b))) by (bit_vector);
}

/// Law: byte for byte, a bred genome is the selector masking the union of the
/// parents.
pub proof fn lemma_child_genome_masks_union(sel: Seq<u8>, a: Seq<u8>, b: Seq<u8>)
    requires
        a.len() == sel.len(),
        b.len() == sel.len(),
    ensures
        forall|i: int|
            0 <= i < sel.len() ==> child_genome(sel, a, b)[i] == (sel[i] & (a[i] | b[i])),
{
    assert forall|i: int|
        0 <= i < sel.len() implies child_genome(sel, a, b)[i] == (sel[i] & (a[i] | b[i])) by {
        lemma_child_byte_masks_union(sel[i], a[i], b[i]);
    }
}

/// Law: genome derivation is a pure function: equal seeds, callers and
/// sequence numbers always give equal genomes.
pub proof fn lemma_genome_deterministic(
    seed1: Seq<u8>,
    seed2: Seq<u8>,
    caller1: u64,
    caller2: u64,
    index1: u32,
    index2: u32,
)
    requires
        seed1 == seed2,
        caller1 == caller2,
        index1 == index2,
    ensures
        genome_for(seed1, caller1, index1) == genome_for(seed2, caller2, index2),
{
}

} // verus!
