//! Merkle membership verification: given a leaf secret, an ordered sequence
//! of sibling hashes, and a leaf index, decides whether the committed root
//! covers that leaf at that position.

use vstd::prelude::*;
use crate::hashing::{hash_leaf, hash_node, hash_pair, hash_secret};
use crate::types::{bytes32_eq, Hash256};

verus! {

/// The byte views of a sequence of hashes.
pub open spec fn hashes_view(hashes: Seq<Hash256>) -> Seq<Seq<u8>> {
    hashes.map_values(|h: Hash256| h@)
}

/// Folds a Merkle proof over a starting node: at each level the node is
/// paired with the next sibling, on the side the next index bit picks (bit
/// clear: the node is the left child), and the index is halved.
pub open spec fn merkle_fold(current: Seq<u8>, siblings: Seq<Seq<u8>>, index: nat) -> Seq<u8>
    decreases siblings.len(),
{
    if siblings.len() == 0 {
        current
    } else {
        let parent = if index % 2 == 1 {
            hash_node(siblings[0], current)
        } else {
            hash_node(current, siblings[0])
        };
        merkle_fold(parent, siblings.drop_first(), index / 2)
    }
}

/// Whether `siblings` proves that the secret's leaf commitment sits at
/// `index` under `root`.
pub open spec fn merkle_verify(
    siblings: Seq<Seq<u8>>,
    secret: Seq<u8>,
    index: nat,
    root: Seq<u8>,
) -> bool {
    merkle_fold(hash_leaf(secret), siblings, index) == root
}

/// With an empty proof the verifier accepts exactly the secrets whose leaf
/// commitment is the root itself, as in a single-leaf tree.
pub proof fn lemma_empty_proof_verifies_only_leaf(secret: Seq<u8>, index: nat, root: Seq<u8>)
    ensures
        merkle_verify(Seq::<Seq<u8>>::empty(), secret, index, root) <==> root == hash_leaf(secret),
{
}

/// Checks a Merkle membership proof; `siblings` is ordered leaf-to-root.
pub fn verify_proof(siblings: &Vec<Hash256>, secret: &Hash256, index: u32, root: &Hash256) -> (r:
    bool)
    ensures
        r == merkle_verify(hashes_view(siblings@), secret@, index as nat, root@),
{
    let mut current: Hash256 = hash_secret(secret);
    let mut idx: u32 = index;
    let mut i: usize = 0;
    proof {
        assert(hashes_view(siblings@).skip(0) =~= hashes_view(siblings@));
    }
    while i < siblings.len()
        invariant
            0 <= i <= siblings@.len(),
            merkle_fold(current@, hashes_view(siblings@).skip(i as int), idx as nat)
                == merkle_fold(hash_leaf(secret@), hashes_view(siblings@), index as nat),
        decreases siblings@.len() - i,
    {
        let sibling = siblings[i];
        proof {
            let views = hashes_view(siblings@);
            assert(views.skip(i as int)[0] == sibling@);
            assert(views.skip(i as int).drop_first() =~= views.skip(i as int + 1));
        }
        if idx % 2 == 0 {
            current = hash_pair(&current, &sibling);
        } else {
            current = hash_pair(&sibling, &current);
        }
        idx = idx / 2;
        i = i + 1;
    }
    proof {
        assert(hashes_view(siblings@).skip(siblings@.len() as int) =~= Seq::<Seq<u8>>::empty());
    }
    bytes32_eq(&current.bytes, &root.bytes)
}

} // verus!
