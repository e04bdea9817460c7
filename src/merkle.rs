//! Merkle inclusion: recomputing a root from a leaf, its authentication path
//! and its index, and the tree that such paths are drawn from.

use vstd::prelude::*;
use vstd::arithmetic::power2::{lemma2_to64, lemma_pow2_unfold, pow2};

verus! {

/// The Keccak-256 digest of a byte string.
pub uninterp spec fn keccak256_of(data: Seq<u8>) -> Seq<u8>;

/// Relies on solana_program's `keccak::hashv`: the Keccak-256 digest of the
/// concatenation of the slices it is given.
#[verifier::external_body]
fn keccak256_pair(left: &[u8; 32], right: &[u8; 32]) -> (r: [u8; 32])
    ensures
        r@ == keccak256_of(left@ + right@),
{
    anchor_lang::solana_program::keccak::hashv(&[&left[..], &right[..]]).to_bytes()
}

/// The parent of two nodes, `left` on the left.
pub open spec fn parent(left: Seq<u8>, right: Seq<u8>) -> Seq<u8> {
    keccak256_of(left + right)
}

/// The root reached from `leaf` by `path`: at each level the current node is
/// the left child when the index is even and the right child when it is odd,
/// and the index is halved on the way up.
pub open spec fn merkle_root(leaf: Seq<u8>, path: Seq<Seq<u8>>, index: nat) -> Seq<u8>
    decreases path.len(),
{
    if path.len() == 0 {
        leaf
    } else {
        let up = if index % 2 == 0 {
            parent(leaf, path[0])
        } else {
            parent(path[0], leaf)
        };
        merkle_root(up, path.drop_first(), index / 2)
    }
}

/// The views of a slice of 32-byte nodes.
pub open spec fn node_views(nodes: Seq<[u8; 32]>) -> Seq<Seq<u8>> {
    nodes.map_values(|n: [u8; 32]| n@)
}

/// Recomputes the root of the tree that holds `leaf` at `index`, given the
/// siblings on the way up, lowest first.
pub fn compute_merkle_root(leaf: [u8; 32], path: &[[u8; 32]], index: u32) -> (r: [u8; 32])
    ensures
        r@ == merkle_root(leaf@, node_views(path@), index as nat),
{
    let mut current: [u8; 32] = leaf;
    let mut idx: u32 = index;
    let mut i: usize = 0;
    proof {
        assert(node_views(path@).skip(0) =~= node_views(path@));
    }
    while i < path.len()
        invariant
            i <= path@.len(),
            merkle_root(current@, node_views(path@).skip(i as int), idx as nat) == merkle_root(
                leaf@,
                node_views(path@),
                index as nat,
            ),
        decreases path@.len() - i,
    {
        let sibling = &path[i];
        let next: [u8; 32] = if idx % 2 == 0 {
            keccak256_pair(&current, sibling)
        } else {
            keccak256_pair(sibling, &current)
        };
        proof {
            let rest = node_views(path@).skip(i as int);
            assert(rest[0] == sibling@);
            assert(rest.drop_first() =~= node_views(path@).skip(i + 1));
        }
        current = next;
        idx = idx / 2;
        i = i + 1;
    }
    proof {
        assert(node_views(path@).skip(i as int) =~= Seq::<Seq<u8>>::empty());
    }
    current
}

/// The level above `nodes`: the parent of each consecutive pair.
pub open spec fn level_up(nodes: Seq<Seq<u8>>) -> Seq<Seq<u8>> {
    Seq::new(nodes.len() / 2, |j: int| parent(nodes[2 * j], nodes[2 * j + 1]))
}

/// The root of the perfect tree of height `depth` over `nodes`, built level by
/// level from the leaves.
pub open spec fn tree_root(nodes: Seq<Seq<u8>>, depth: nat) -> Seq<u8>
    decreases depth,
{
    if depth == 0 {
        nodes[0]
    } else {
        tree_root(level_up(nodes), (depth - 1) as nat)
    }
}

/// The other child of the parent of `nodes[index]`.
pub open spec fn sibling_of(nodes: Seq<Seq<u8>>, index: nat) -> Seq<u8> {
    if index % 2 == 0 {
        nodes[index + 1int]
    } else {
        nodes[index - 1int]
    }
}

/// The authentication path that the tree builder hands out for the leaf at
/// `index`: its sibling at each level, lowest first.
pub open spec fn auth_path(nodes: Seq<Seq<u8>>, index: nat, depth: nat) -> Seq<Seq<u8>>
    decreases depth,
{
    if depth == 0 {
        Seq::empty()
    } else {
        seq![sibling_of(nodes, index)] + auth_path(level_up(nodes), index / 2, (depth - 1) as nat)
    }
}

/// For every perfect tree built with the same left/right convention, the root
/// recomputed from a leaf, its authentication path and its index is exactly the
/// root the builder produced.
pub proof fn lemma_root_round_trip(nodes: Seq<Seq<u8>>, depth: nat, index: nat)
    requires
        nodes.len() == pow2(depth),
        index < nodes.len(),
    ensures
        merkle_root(nodes[index as int], auth_path(nodes, index, depth), index) == tree_root(
            nodes,
            depth,
        ),
    decreases depth,
{
    if depth > 0 {
        lemma_pow2_unfold(depth);
        let up = level_up(nodes);
        let path = auth_path(nodes, index, depth);
        assert(up.len() == pow2((depth - 1) as nat));
        assert(path[0] == sibling_of(nodes, index));
        assert(path.drop_first() =~= auth_path(up, index / 2, (depth - 1) as nat));
        if index % 2 == 0 {
            assert(up[(index / 2) as int] == parent(nodes[index as int], nodes[index + 1int]));
        } else {
            assert(up[(index / 2) as int] == parent(nodes[index - 1int], nodes[index as int]));
        }
        lemma_root_round_trip(up, (depth - 1) as nat, index / 2);
        assert(merkle_root(nodes[index as int], path, index) == merkle_root(
            up[(index / 2) as int],
            path.drop_first(),
            index / 2,
        ));
    } else {
        lemma2_to64();
    }
}

} // verus!
