//! Merkle commitment over an ordered sequence of identifiers.

use crate::digest::{sha256_hex, sha256_hex_digest};
use crate::text::texts;
use vstd::prelude::*;
use vstd::string::*;

verus! {

/// The bottom level of the tree: the digest of every leaf, in order.
pub open spec fn leaf_hashes(leaves: Seq<Seq<char>>) -> Seq<Seq<char>> {
    leaves.map_values(|leaf: Seq<char>| sha256_hex(leaf))
}

/// The digest that stands above positions `2 * i` and `2 * i + 1` of `level`.
/// The last node of a level of odd length is paired with itself.
pub open spec fn parent_hash(level: Seq<Seq<char>>, i: int) -> Seq<char> {
    let left = level[2 * i];
    let right = if 2 * i + 1 < level.len() {
        level[2 * i + 1]
    } else {
        left
    };
    sha256_hex(left + right)
}

/// The level above `level`: adjacent digests paired left to right.
pub open spec fn next_level(level: Seq<Seq<char>>) -> Seq<Seq<char>> {
    Seq::new(((level.len() + 1) / 2) as nat, |i: int| parent_hash(level, i))
}

/// Pairs levels up until a single digest is left.
pub open spec fn reduce_levels(level: Seq<Seq<char>>) -> Seq<char>
    decreases level.len(),
{
    if level.len() == 0 {
        seq!['0']
    } else if level.len() == 1 {
        level[0]
    } else {
        reduce_levels(next_level(level))
    }
}

/// The Merkle root of `leaves`. The empty sequence has the sentinel root `"0"`.
pub open spec fn merkle_root(leaves: Seq<Seq<char>>) -> Seq<char> {
    if leaves.len() == 0 {
        seq!['0']
    } else {
        reduce_levels(leaf_hashes(leaves))
    }
}

/// Starting from `hash`, combines the running digest with each element of
/// `path` in order, the running digest on the left.
pub open spec fn fold_path(hash: Seq<char>, path: Seq<Seq<char>>) -> Seq<char>
    decreases path.len(),
{
    if path.len() == 0 {
        hash
    } else {
        sha256_hex(fold_path(hash, path.drop_last()) + path.last())
    }
}

/// The inclusion path of the first node of `level`: its neighbour on each
/// level up to the root.
pub open spec fn first_leaf_path(level: Seq<Seq<char>>) -> Seq<Seq<char>>
    decreases level.len(),
{
    if level.len() <= 1 {
        Seq::empty()
    } else {
        seq![level[1]] + first_leaf_path(next_level(level))
    }
}

/// Folding a path that starts with `first` is folding the rest from the
/// digest of the start and `first`.
pub proof fn lemma_fold_path_front(hash: Seq<char>, first: Seq<char>, rest: Seq<Seq<char>>)
    ensures
        fold_path(hash, seq![first] + rest) == fold_path(sha256_hex(hash + first), rest),
    decreases rest.len(),
{
    let path = seq![first] + rest;
    if rest.len() == 0 {
        assert(fold_path(hash, path.drop_last()) == hash);
    } else {
        lemma_fold_path_front(hash, first, rest.drop_last());
        assert(path.drop_last() =~= seq![first] + rest.drop_last());
    }
}

/// Folding the inclusion path of the first node, from that node, gives the
/// digest to which the level reduces.
pub proof fn lemma_first_leaf_path_folds(level: Seq<Seq<char>>)
    requires
        level.len() >= 1,
    ensures
        fold_path(level[0], first_leaf_path(level)) == reduce_levels(level),
    decreases level.len(),
{
    if level.len() > 1 {
        let above = next_level(level);
        lemma_first_leaf_path_folds(above);
        lemma_fold_path_front(level[0], level[1], first_leaf_path(above));
    }
}

/// A root digest together with the leaves it commits to.
pub struct MerkleTree {
    pub root: String,
    pub leaves: Vec<String>,
}

impl MerkleTree {
    /// The stored root is the Merkle root of the stored leaves.
    pub open spec fn wf(&self) -> bool {
        self.root@ == merkle_root(texts(self.leaves@))
    }

    /// Determinism: two trees over the same leaves have the same root.
    pub proof fn lemma_same_leaves_same_root(a: MerkleTree, b: MerkleTree)
        requires
            a.wf(),
            b.wf(),
            texts(a.leaves@) == texts(b.leaves@),
        ensures
            a.root@ == b.root@,
    {
    }

    /// The first leaf of a tree is proved by the digests of its neighbours
    /// on every level: `verify_proof` accepts that path.
    pub proof fn lemma_first_leaf_is_included(tree: MerkleTree)
        requires
            tree.wf(),
            tree.leaves@.len() >= 1,
        ensures
            fold_path(
                sha256_hex(tree.leaves@[0]@),
                first_leaf_path(leaf_hashes(texts(tree.leaves@))),
            ) == tree.root@,
    {
        lemma_first_leaf_path_folds(leaf_hashes(texts(tree.leaves@)));
    }

    /// Builds the tree over `data`.
    pub fn new(data: Vec<String>) -> (tree: Self)
        ensures
            tree.leaves == data,
            tree.root@ == merkle_root(texts(data@)),
            tree.wf(),
    {
        let root = Self::calculate_root(data.as_slice());
        MerkleTree { root, leaves: data }
    }

    /// Computes the Merkle root of `data`.
    pub fn calculate_root(data: &[String]) -> (root: String)
        ensures
            root@ == merkle_root(texts(data@)),
    {
        if data.len() == 0 {
            proof {
                reveal_strlit("0");
            }
            let sentinel = String::from_str("0");
            return sentinel;
        }
        let mut hashes: Vec<String> = Vec::new();
        let mut i: usize = 0;
        while i < data.len()
            invariant
                i <= data.len(),
                hashes.len() == i,
                forall|j: int| 0 <= j < i ==> (#[trigger] hashes[j])@ == sha256_hex(data[j]@),
            decreases data.len() - i,
        {
            hashes.push(sha256_hex_digest(data[i].as_str()));
            i = i + 1;
        }
        assert(texts(hashes@) =~= leaf_hashes(texts(data@)));
        while hashes.len() > 1
            invariant
                hashes.len() >= 1,
                reduce_levels(texts(hashes@)) == merkle_root(texts(data@)),
            decreases hashes.len(),
        {
            let len: usize = hashes.len();
            let half: usize = len / 2 + len % 2;
            let mut above: Vec<String> = Vec::new();
            let mut p: usize = 0;
            while p < half
                invariant
                    len == hashes.len(),
                    len >= 2,
                    half == (len + 1) / 2,
                    p <= half,
                    above.len() == p,
                    forall|j: int|
                        0 <= j < p ==> (#[trigger] above[j])@ == parent_hash(texts(hashes@), j),
                decreases half - p,
            {
                let left: &String = &hashes[2 * p];
                let joined: String = if 2 * p + 1 < len {
                    left.clone().concat(hashes[2 * p + 1].as_str())
                } else {
                    left.clone().concat(left.as_str())
                };
                above.push(sha256_hex_digest(joined.as_str()));
                p = p + 1;
            }
            assert(texts(above@) =~= next_level(texts(hashes@)));
            hashes = above;
        }
        hashes[0].clone()
    }

    /// Recomputes a root from `leaf` and the inclusion path `proof`, and
    /// compares it with the stored root.
    pub fn verify_proof(&self, leaf: &str, proof: &[String]) -> (ok: bool)
        ensures
            ok == (fold_path(sha256_hex(leaf@), texts(proof@)) == self.root@),
    {
        let mut hash: String = sha256_hex_digest(leaf);
        let mut i: usize = 0;
        while i < proof.len()
            invariant
                i <= proof.len(),
                hash@ == fold_path(sha256_hex(leaf@), texts(proof@).take(i as int)),
            decreases proof.len() - i,
        {
            let joined: String = hash.concat(proof[i].as_str());
            hash = sha256_hex_digest(joined.as_str());
            proof {
                let path = texts(proof@);
                assert(path.take(i + 1).drop_last() =~= path.take(i as int));
            }
            i = i + 1;
        }
        assert(texts(proof@).take(proof.len() as int) =~= texts(proof@));
        hash == self.root
    }
}

} // verus!
