//! Keccak-256 hashing: the commitment scheme's hash function, and the leaf
//! and inner-node constructions built from it.

use vstd::prelude::*;
use crate::types::Hash256;

verus! {

broadcast use vstd::array::group_array_axioms;

/// The Keccak-256 digest of a byte string, as the outside hasher computes it.
pub uninterp spec fn keccak256(input: Seq<u8>) -> Seq<u8>;

/// The leaf commitment of a secret: its Keccak-256 digest.
pub open spec fn hash_leaf(secret: Seq<u8>) -> Seq<u8> {
    keccak256(secret)
}

/// An inner Merkle node: the digest of the two children, left then right.
pub open spec fn hash_node(left: Seq<u8>, right: Seq<u8>) -> Seq<u8> {
    keccak256(left + right)
}

/// Relies on ink::env::hash_bytes with the Keccak256 algorithm: the 32-byte
/// digest depends on the input bytes alone.
#[verifier::external_body]
fn keccak256_exec(input: &[u8]) -> (r: [u8; 32])
    ensures
        r@ == keccak256(input@),
{
    let mut output = [0u8; 32];
    ink::env::hash_bytes::<ink::env::hash::Keccak256>(input, &mut output);
    output
}

/// Hashes a secret into its leaf commitment.
pub fn hash_secret(secret: &Hash256) -> (r: Hash256)
    ensures
        r@ == hash_leaf(secret@),
{
    Hash256 { bytes: keccak256_exec(secret.bytes.as_slice()) }
}

/// Hashes an ordered pair of nodes into their parent node.
pub fn hash_pair(left: &Hash256, right: &Hash256) -> (r: Hash256)
    ensures
        r@ == hash_node(left@, right@),
{
    let mut input: Vec<u8> = Vec::new();
    let mut i: usize = 0;
    while i < 32
        invariant
            0 <= i <= 32,
            input@ == left.bytes@.take(i as int),
        decreases 32 - i,
    {
        input.push(left.bytes[i]);
        proof {
            assert(input@ =~= left.bytes@.take(i + 1));
        }
        i = i + 1;
    }
    proof {
        assert(input@ =~= left.bytes@);
    }
    let mut j: usize = 0;
    while j < 32
        invariant
            0 <= j <= 32,
            input@ == left.bytes@ + right.bytes@.take(j as int),
        decreases 32 - j,
    {
        input.push(right.bytes[j]);
        proof {
            assert(input@ =~= left.bytes@ + right.bytes@.take(j + 1));
        }
        j = j + 1;
    }
    proof {
        assert(input@ =~= left@ + right@);
    }
    Hash256 { bytes: keccak256_exec(input.as_slice()) }
}

} // verus!
