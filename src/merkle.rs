//! Merkle root reconstruction from a leaf and an ordered sibling path.
//!
//! At each step the running hash and the sibling are ordered by unsigned
//! lexicographic comparison, the smaller first, then concatenated and hashed.
//! The combination of one pair therefore does not depend on which side of the
//! tree the sibling stood.
use vstd::prelude::*;

use crate::keccak::{keccak256, keccak256_of};

verus! {

/// Unsigned lexicographic order: `a` is smaller than `b` at the first index
/// where they differ.
pub open spec fn lex_lt(a: Seq<u8>, b: Seq<u8>) -> bool {
    exists|i: int|
        0 <= i < a.len() && i < b.len() && a[i] < b[i] && (forall|j: int|
            0 <= j < i ==> #[trigger] a[j] == b[j])
}

/// The bytes hashed when `current` meets `sibling`: the smaller one first.
pub open spec fn pair_preimage(current: Seq<u8>, sibling: Seq<u8>) -> Seq<u8> {
    if lex_lt(current, sibling) {
        current + sibling
    } else {
        sibling + current
    }
}

/// The root reached from `leaf` by combining with each sibling of `path` in turn.
pub open spec fn merkle_root(leaf: Seq<u8>, path: Seq<[u8; 32]>) -> Seq<u8>
    decreases path.len(),
{
    if path.len() == 0 {
        leaf
    } else {
        keccak256_of(pair_preimage(merkle_root(leaf, path.drop_last()), path.last()@))
    }
}

/// Compares two 32-byte values as unsigned big-endian numbers would compare.
pub fn bytes_lt(a: &[u8; 32], b: &[u8; 32]) -> (r: bool)
    ensures
        r == lex_lt(a@, b@),
{
    let mut i: usize = 0;
    while i < 32
        invariant
            0 <= i <= 32,
            forall|j: int| 0 <= j < i ==> a@[j] == b@[j],
        decreases 32 - i,
    {
        if a[i] != b[i] {
            if a[i] < b[i] {
                assert(a@[i as int] < b@[i as int]);
                return true;
            } else {
                assert(!lex_lt(a@, b@)) by {
                    if lex_lt(a@, b@) {
                        let k = choose|k: int|
                            0 <= k < a@.len() && k < b@.len() && a@[k] < b@[k] && (forall|j: int|
                                0 <= j < k ==> #[trigger] a@[j] == b@[j]);
                        if k > i {
                            assert(a@[i as int] == b@[i as int]);
                        }
                    }
                }
                return false;
            }
        }
        i += 1;
    }
    false
}

/// The 64 bytes of `first` followed by `second`.
fn concat_pair(first: &[u8; 32], second: &[u8; 32]) -> (r: Vec<u8>)
    ensures
        r@ == first@ + second@,
{
    let mut out: Vec<u8> = Vec::with_capacity(64);
    let mut i: usize = 0;
    while i < 32
        invariant
            0 <= i <= 32,
            out@ == first@.subrange(0, i as int),
        decreases 32 - i,
    {
        out.push(first[i]);
        i += 1;
    }
    assert(out@ == first@);
    let mut k: usize = 0;
    while k < 32
        invariant
            0 <= k <= 32,
            out@ == first@ + second@.subrange(0, k as int),
        decreases 32 - k,
    {
        out.push(second[k]);
        k += 1;
    }
    assert(second@.subrange(0, 32) == second@);
    out
}

/// The bytes hashed when `current` meets `sibling` on the path to the root:
/// the two values in ascending lexicographic order, concatenated.
pub fn sorted_pair(current: &[u8; 32], sibling: &[u8; 32]) -> (r: Vec<u8>)
    ensures
        r@ == pair_preimage(current@, sibling@),
        r@.len() == 64,
{
    if bytes_lt(current, sibling) {
        concat_pair(current, sibling)
    } else {
        concat_pair(sibling, current)
    }
}

/// Reconstructs the Merkle root from `leaf` and its sibling path.
pub fn calculate_merkle_root(proof: &[[u8; 32]], leaf: &[u8; 32]) -> (r: [u8; 32])
    ensures
        r@ == merkle_root(leaf@, proof@),
        proof@.len() == 0 ==> r == *leaf,
{
    let mut current_hash: [u8; 32] = *leaf;
    let mut i: usize = 0;
    while i < proof.len()
        invariant
            0 <= i <= proof@.len(),
            current_hash@ == merkle_root(leaf@, proof@.subrange(0, i as int)),
            i == 0 ==> current_hash == *leaf,
        decreases proof@.len() - i,
    {
        let pair = sorted_pair(&current_hash, &proof[i]);
        current_hash = keccak256(pair.as_slice());
        assert(proof@.subrange(0, i + 1).drop_last() == proof@.subrange(0, i as int));
        i += 1;
    }
    assert(proof@.subrange(0, proof@.len() as int) == proof@);
    current_hash
}

/// With an empty sibling path the root is the leaf itself.
pub proof fn lemma_root_of_empty_path(leaf: [u8; 32])
    ensures
        merkle_root(leaf@, Seq::empty()) == leaf@,
{
}

/// Lexicographic order on values of one length is a strict total order:
/// of two distinct values exactly one is the smaller.
pub proof fn lemma_lex_lt_total(a: Seq<u8>, b: Seq<u8>)
    requires
        a.len() == b.len(),
    ensures
        !(lex_lt(a, b) && lex_lt(b, a)),
        !lex_lt(a, b) && !lex_lt(b, a) ==> a == b,
{
    if lex_lt(a, b) && lex_lt(b, a) {
        let i = choose|i: int|
            0 <= i < a.len() && i < b.len() && a[i] < b[i] && (forall|j: int|
                0 <= j < i ==> #[trigger] a[j] == b[j]);
        let k = choose|k: int|
            0 <= k < b.len() && k < a.len() && b[k] < a[k] && (forall|j: int|
                0 <= j < k ==> #[trigger] b[j] == a[j]);
        if i < k {
            assert(b[i] == a[i]);
        } else if k < i {
            assert(a[k] == b[k]);
        }
    }
    if !lex_lt(a, b) && !lex_lt(b, a) && a != b {
        assert(exists|i: int| 0 <= i < a.len() && a[i] != b[i]) by {
            if forall|i: int| 0 <= i < a.len() ==> a[i] == b[i] {
                assert(a =~= b);
            }
        }
        let d = choose|i: int| 0 <= i < a.len() && a[i] != b[i];
        lemma_first_difference(a, b, d);
    }
}

/// Two values of one length that differ somewhere up to `d` are ordered,
/// one way or the other, at their first difference.
proof fn lemma_first_difference(a: Seq<u8>, b: Seq<u8>, d: int)
    requires
        a.len() == b.len(),
        0 <= d < a.len(),
        a[d] != b[d],
    ensures
        lex_lt(a, b) || lex_lt(b, a),
    decreases d,
{
    if exists|i: int| 0 <= i < d && a[i] != b[i] {
        let e = choose|i: int| 0 <= i < d && a[i] != b[i];
        lemma_first_difference(a, b, e);
    } else {
        if a[d] < b[d] {
            assert(forall|j: int| 0 <= j < d ==> #[trigger] a[j] == b[j]);
        } else {
            assert(forall|j: int| 0 <= j < d ==> #[trigger] b[j] == a[j]);
        }
    }
}

/// Combining one pair does not depend on which side the sibling stood:
/// the root of `leaf` over `[sibling]` is the root of `sibling` over `[leaf]`.
pub proof fn lemma_single_step_symmetric(leaf: [u8; 32], sibling: [u8; 32])
    ensures
        merkle_root(leaf@, seq![sibling]) == merkle_root(sibling@, seq![leaf]),
{
    lemma_lex_lt_total(leaf@, sibling@);
    assert(seq![sibling].drop_last() =~= Seq::<[u8; 32]>::empty());
    assert(seq![leaf].drop_last() =~= Seq::<[u8; 32]>::empty());
    assert(merkle_root(leaf@, seq![sibling].drop_last()) == leaf@);
    assert(merkle_root(sibling@, seq![leaf].drop_last()) == sibling@);
    assert(pair_preimage(leaf@, sibling@) == pair_preimage(sibling@, leaf@));
}

} // verus!
