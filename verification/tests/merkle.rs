use bitnun::blockchain::MerkleTree;
use sha2::{Digest, Sha256};

fn sha_hex(text: &str) -> String {
    let mut hasher = Sha256::new();
    hasher.update(text.as_bytes());
    format!("{:x}", hasher.finalize())
}

fn leaves(items: &[&str]) -> Vec<String> {
    items.iter().map(|s| s.to_string()).collect()
}

#[test]
fn empty_tree_has_sentinel_root() {
    let tree = MerkleTree::new(Vec::new());
    assert_eq!(tree.root, "0");
    assert!(tree.leaves.is_empty());
}

#[test]
fn single_leaf_root_is_leaf_digest() {
    let tree = MerkleTree::new(leaves(&["a"]));
    assert_eq!(
        tree.root,
        "ca978112ca1bbdcafac231b39a23dc4da786eff8147c4e72b9807785afee48bb"
    );
    assert_eq!(tree.leaves, leaves(&["a"]));
}

#[test]
fn two_leaves_hash_the_joined_digests() {
    let tree = MerkleTree::new(leaves(&["a", "b"]));
    let joined = format!("{}{}", sha_hex("a"), sha_hex("b"));
    assert_eq!(tree.root, sha_hex(&joined));
}

#[test]
fn three_leaves_duplicate_the_odd_one() {
    let tree = MerkleTree::new(leaves(&["a", "b", "c"]));
    let (a, b, c) = (sha_hex("a"), sha_hex("b"), sha_hex("c"));
    let ab = sha_hex(&format!("{}{}", a, b));
    let cc = sha_hex(&format!("{}{}", c, c));
    assert_eq!(tree.root, sha_hex(&format!("{}{}", ab, cc)));
}

#[test]
fn five_leaves_reduce_over_three_levels() {
    let tree = MerkleTree::new(leaves(&["1", "2", "3", "4", "5"]));
    let h: Vec<String> = ["1", "2", "3", "4", "5"].iter().map(|s| sha_hex(s)).collect();
    let l1 = [
        sha_hex(&format!("{}{}", h[0], h[1])),
        sha_hex(&format!("{}{}", h[2], h[3])),
        sha_hex(&format!("{}{}", h[4], h[4])),
    ];
    let l2 = [
        sha_hex(&format!("{}{}", l1[0], l1[1])),
        sha_hex(&format!("{}{}", l1[2], l1[2])),
    ];
    assert_eq!(tree.root, sha_hex(&format!("{}{}", l2[0], l2[1])));
}

#[test]
fn root_is_deterministic() {
    let first = MerkleTree::new(leaves(&["x", "y", "z"]));
    let second = MerkleTree::new(leaves(&["x", "y", "z"]));
    assert_eq!(first.root, second.root);
    assert_eq!(first.root, MerkleTree::calculate_root(&leaves(&["x", "y", "z"])));
}

#[test]
fn root_depends_on_order_and_content() {
    let base = MerkleTree::new(leaves(&["x", "y"]));
    assert_ne!(base.root, MerkleTree::new(leaves(&["y", "x"])).root);
    assert_ne!(base.root, MerkleTree::new(leaves(&["x", "z"])).root);
    assert_ne!(base.root, MerkleTree::new(leaves(&["x", "y", "y"])).root);
}

#[test]
fn proof_of_single_leaf_is_empty_path() {
    let tree = MerkleTree::new(leaves(&["a"]));
    assert!(tree.verify_proof("a", &[]));
    assert!(!tree.verify_proof("b", &[]));
}

#[test]
fn proof_of_first_leaf_uses_right_neighbours() {
    let tree = MerkleTree::new(leaves(&["a", "b", "c"]));
    let cc = sha_hex(&format!("{}{}", sha_hex("c"), sha_hex("c")));
    let path = vec![sha_hex("b"), cc];
    assert!(tree.verify_proof("a", &path));
}

#[test]
fn proof_with_wrong_path_is_rejected() {
    let tree = MerkleTree::new(leaves(&["a", "b", "c"]));
    let cc = sha_hex(&format!("{}{}", sha_hex("c"), sha_hex("c")));
    assert!(!tree.verify_proof("a", &[cc.clone(), sha_hex("b")]));
    assert!(!tree.verify_proof("a", &[sha_hex("b")]));
    assert!(!tree.verify_proof("b", &[sha_hex("b"), cc]));
}

#[test]
fn proof_against_empty_tree_is_rejected() {
    let tree = MerkleTree::new(Vec::new());
    assert!(!tree.verify_proof("a", &[]));
}
