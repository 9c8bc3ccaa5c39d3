use bitnun::consensus::{base_reward_of, ProofOfAction};
use sha2::{Digest, Sha256};

fn sha_hex(text: &str) -> String {
    let mut hasher = Sha256::new();
    hasher.update(text.as_bytes());
    format!("{:x}", hasher.finalize())
}

fn unproved(action_type: &str, difficulty: u32, score: u64) -> ProofOfAction {
    ProofOfAction {
        user_id: "user1".to_string(),
        action_type: action_type.to_string(),
        timestamp: 1_700_000_000_000,
        proof_hash: String::new(),
        difficulty,
        nonce: 0,
        authenticity_score: score,
    }
}

#[test]
fn new_proof_is_found_and_valid() {
    let proof = ProofOfAction::new("user1", "click", 1_700_000_000_000, 2);
    assert_eq!(proof.user_id, "user1");
    assert_eq!(proof.action_type, "click");
    assert_eq!(proof.timestamp, 1_700_000_000_000);
    assert_eq!(proof.difficulty, 2);
    assert_eq!(proof.authenticity_score, 1_000_000);
    assert!(proof.nonce > 0);
    assert!(proof.proof_hash.starts_with("00"));
    assert_eq!(
        proof.proof_hash,
        sha_hex(&format!("user1click1700000000000{}", proof.nonce))
    );
    assert!(proof.validate());
}

#[test]
fn proof_search_stops_at_the_first_qualifying_nonce() {
    let proof = ProofOfAction::new("user1", "click", 1_700_000_000_000, 1);
    for nonce in 1..proof.nonce {
        assert!(!sha_hex(&format!("user1click1700000000000{}", nonce)).starts_with("0"));
    }
}

#[test]
fn proof_at_difficulty_zero_takes_the_first_digest() {
    let proof = ProofOfAction::new("alice", "click", 1000, 0);
    assert_eq!(proof.nonce, 1);
    assert_eq!(proof.proof_hash, sha_hex("aliceclick10001"));
    assert_eq!(proof.proof_hash.len(), 64);
    assert!(proof.carries_proof());
    assert!(proof.validate());
}

#[test]
fn generate_proof_replaces_a_hash_that_is_not_the_digest() {
    let mut proof = unproved("click", 0, 1_000_000);
    assert!(!proof.carries_proof());
    assert!(proof.generate_proof());
    assert_eq!(proof.nonce, 1);
    assert_eq!(proof.proof_hash, sha_hex("user1click17000000000001"));
    assert!(proof.validate());
    let mut stale = ProofOfAction::new("user1", "click", 1_700_000_000_000, 1);
    let found = stale.nonce;
    stale.proof_hash = "0stale".to_string();
    assert!(!stale.validate());
    assert!(stale.generate_proof());
    assert!(stale.nonce > found);
    assert!(stale.proof_hash.starts_with("0"));
    assert_eq!(
        stale.proof_hash,
        sha_hex(&format!("user1click1700000000000{}", stale.nonce))
    );
    assert!(stale.validate());
}

#[test]
fn generate_proof_leaves_a_qualifying_proof_alone() {
    let mut proof = ProofOfAction::new("user1", "scroll", 5, 1);
    let (nonce, hash) = (proof.nonce, proof.proof_hash.clone());
    assert!(proof.generate_proof());
    assert_eq!(proof.nonce, nonce);
    assert_eq!(proof.proof_hash, hash);
}

#[test]
fn generate_proof_gives_up_at_the_last_nonce() {
    let mut proof = unproved("click", 60, 1_000_000);
    proof.nonce = u64::MAX - 1;
    assert!(!proof.generate_proof());
    assert_eq!(proof.nonce, u64::MAX);
    assert!(!proof.validate());
}

#[test]
fn admission_threshold_is_seven_tenths() {
    let mut proof = ProofOfAction::new("user1", "click", 1_700_000_000_000, 1);
    proof.set_authenticity_score(690_000);
    assert!(!proof.validate());
    proof.set_authenticity_score(700_000);
    assert!(proof.validate());
    proof.set_authenticity_score(699_999);
    assert!(!proof.validate());
    proof.set_authenticity_score(1_000_000);
    assert!(proof.validate());
    proof.set_authenticity_score(0);
    assert!(!proof.validate());
}

#[test]
fn authenticity_score_is_limited_to_one() {
    let mut proof = unproved("click", 0, 0);
    proof.set_authenticity_score(2_000_000);
    assert_eq!(proof.authenticity_score, 1_000_000);
    proof.set_authenticity_score(u64::MAX);
    assert_eq!(proof.authenticity_score, 1_000_000);
    proof.set_authenticity_score(123);
    assert_eq!(proof.authenticity_score, 123);
}

#[test]
fn tampered_proof_is_invalid() {
    let proof = ProofOfAction::new("user1", "click", 1_700_000_000_000, 1);
    let mut other = ProofOfAction::new("user1", "click", 1_700_000_000_000, 1);
    other.user_id = "user2".to_string();
    assert!(!other.validate());
    let mut other = ProofOfAction::new("user1", "click", 1_700_000_000_000, 1);
    other.timestamp += 1;
    assert!(!other.validate());
    let mut other = ProofOfAction::new("user1", "click", 1_700_000_000_000, 1);
    other.nonce += 1;
    assert!(!other.validate());
    let mut other = ProofOfAction::new("user1", "click", 1_700_000_000_000, 1);
    other.proof_hash = format!("0{}", &proof.proof_hash[1..63]);
    assert!(!other.validate());
    let mut other = ProofOfAction::new("user1", "click", 1_700_000_000_000, 1);
    other.difficulty = 64;
    assert!(!other.validate());
}

#[test]
fn base_rewards_follow_the_table() {
    assert_eq!(base_reward_of("click"), 5);
    assert_eq!(base_reward_of("scroll"), 2);
    assert_eq!(base_reward_of("share"), 25);
    assert_eq!(base_reward_of("form_submit"), 50);
    assert_eq!(base_reward_of("referral"), 100);
    assert_eq!(base_reward_of("daily_login"), 20);
    assert_eq!(base_reward_of("other"), 1);
    assert_eq!(base_reward_of(""), 1);
}

#[test]
fn reward_is_base_times_score_times_difficulty_bonus() {
    assert_eq!(unproved("click", 1, 1_000_000).calculate_reward(), 5);
    assert_eq!(unproved("click", 2, 1_000_000).calculate_reward(), 6);
    assert_eq!(unproved("share", 2, 800_000).calculate_reward(), 24);
    assert_eq!(unproved("referral", 3, 700_000).calculate_reward(), 91);
    assert_eq!(unproved("form_submit", 0, 500_000).calculate_reward(), 25);
    assert_eq!(unproved("daily_login", 10, 1_000_000).calculate_reward(), 40);
    assert_eq!(unproved("scroll", 4, 900_000).calculate_reward(), 2);
}

#[test]
fn reward_is_at_least_one_unit() {
    assert_eq!(unproved("other", 2, 1_000_000).calculate_reward(), 1);
    assert_eq!(unproved("click", 2, 0).calculate_reward(), 1);
    assert_eq!(unproved("scroll", 0, 100_000).calculate_reward(), 1);
}

#[test]
fn reward_is_limited_to_the_largest_amount() {
    let proof = unproved("referral", u32::MAX, u64::MAX);
    assert_eq!(proof.calculate_reward(), u64::MAX);
}
