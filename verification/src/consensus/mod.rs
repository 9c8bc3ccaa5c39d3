//! Proof-of-Action: a hash-search proof that a user performed an action,
//! admitted only with a sufficient authenticity score.

pub mod proof_of_action;
pub mod validator;

pub use proof_of_action::ActionValidator;
pub use validator::{NetworkValidator, ValidatorInfo};

use crate::digest::{sha256_hex, sha256_hex_digest};
use crate::score::{clamp_score, clamp_to_unit, ADMISSION_THRESHOLD, SCORE_ONE};
use crate::text::{decimal_string, decimal_text, has_zero_prefix, same_text, starts_with_zeros};
use vstd::prelude::*;
use vstd::string::*;

verus! {

/// A proof that `user_id` performed an action of kind `action_type` at
/// `timestamp` (milliseconds). `authenticity_score` is in millionths.
pub struct ProofOfAction {
    pub user_id: String,
    pub action_type: String,
    pub timestamp: u64,
    pub proof_hash: String,
    pub difficulty: u32,
    pub nonce: u64,
    pub authenticity_score: u64,
}

/// What a proof holds, as plain mathematical values.
pub struct ProofView {
    pub user_id: Seq<char>,
    pub action_type: Seq<char>,
    pub timestamp: nat,
    pub proof_hash: Seq<char>,
    pub difficulty: nat,
    pub nonce: nat,
    pub authenticity_score: nat,
}

impl View for ProofOfAction {
    type V = ProofView;

    open spec fn view(&self) -> ProofView {
        ProofView {
            user_id: self.user_id@,
            action_type: self.action_type@,
            timestamp: self.timestamp as nat,
            proof_hash: self.proof_hash@,
            difficulty: self.difficulty as nat,
            nonce: self.nonce as nat,
            authenticity_score: self.authenticity_score as nat,
        }
    }
}

/// The part of the hashed text that stands before the nonce: user, action
/// type and timestamp, without separators.
pub open spec fn proof_head(p: ProofView) -> Seq<char> {
    p.user_id + p.action_type + decimal_text(p.timestamp)
}

/// The hash that a proof with this user, action, timestamp and nonce must
/// carry.
pub open spec fn proof_digest(p: ProofView) -> Seq<char> {
    sha256_hex(proof_head(p) + decimal_text(p.nonce))
}

/// `p` with another nonce.
pub open spec fn proof_with_nonce(p: ProofView, nonce: nat) -> ProofView {
    ProofView { nonce, ..p }
}

/// The proof carries the digest of its contents, and that digest starts
/// with as many zeros as the difficulty asks for.
pub open spec fn proved(p: ProofView) -> bool {
    p.proof_hash == proof_digest(p) && has_zero_prefix(p.proof_hash, p.difficulty)
}

/// Some nonce above the stored one, up to `u64::MAX`, gives the contents a
/// digest that starts with as many zeros as the difficulty asks for.
pub open spec fn has_proving_nonce(p: ProofView) -> bool {
    exists|n: nat|
        p.nonce < n <= u64::MAX && has_zero_prefix(
            #[trigger] proof_digest(proof_with_nonce(p, n)),
            p.difficulty,
        )
}

/// A proof is valid when it carries the hash of its contents, that hash
/// starts with as many zeros as the difficulty asks for, and the
/// authenticity score is at least 0.7.
pub open spec fn valid_proof(p: ProofView) -> bool {
    proved(p) && p.authenticity_score >= ADMISSION_THRESHOLD
}

/// The admission threshold: a proof that carries the hash of its contents,
/// with enough leading zeros, is valid exactly from the authenticity score
/// 0.7 on, whatever else it holds.
pub proof fn lemma_admission_threshold(p: ProofView, score: nat)
    requires
        proof_digest(p) == p.proof_hash,
        has_zero_prefix(p.proof_hash, p.difficulty),
    ensures
        valid_proof(ProofView { authenticity_score: score, ..p }) <==> score >= ADMISSION_THRESHOLD,
        !valid_proof(ProofView { authenticity_score: 690_000, ..p }),
        valid_proof(ProofView { authenticity_score: 700_000, ..p }),
{
}

/// The reward, in whole units, on which the rules for an action type start.
pub open spec fn base_reward(action_type: Seq<char>) -> nat {
    if action_type == "click"@ {
        5
    } else if action_type == "scroll"@ {
        2
    } else if action_type == "share"@ {
        25
    } else if action_type == "form_submit"@ {
        50
    } else if action_type == "referral"@ {
        100
    } else if action_type == "daily_login"@ {
        20
    } else {
        1
    }
}

/// The reward for a proved action: the base reward times the authenticity
/// score times `1 + difficulty / 10`, rounded down, at least one unit and at
/// most `u64::MAX`.
pub open spec fn proof_reward(action_type: Seq<char>, score: nat, difficulty: nat) -> nat {
    let raw = (base_reward(action_type) * score * (10 + difficulty)) / (10 * SCORE_ONE as nat);
    if raw < 1 {
        1
    } else if raw > u64::MAX {
        u64::MAX as nat
    } else {
        raw
    }
}

/// The base reward of an action type.
pub fn base_reward_of(action_type: &str) -> (reward: u64)
    ensures
        reward == base_reward(action_type@),
        1 <= reward <= 100,
{
    if same_text(action_type, "click") {
        5
    } else if same_text(action_type, "scroll") {
        2
    } else if same_text(action_type, "share") {
        25
    } else if same_text(action_type, "form_submit") {
        50
    } else if same_text(action_type, "referral") {
        100
    } else if same_text(action_type, "daily_login") {
        20
    } else {
        1
    }
}

impl ProofOfAction {
    /// Creates a proof with full authenticity and searches for its nonce,
    /// from 1 upwards. The proof always carries the digest of its contents;
    /// the search has failed when that digest does not start with enough
    /// zeros, which can only be at the nonce `u64::MAX`.
    pub fn new(user_id: &str, action_type: &str, timestamp: u64, difficulty: u32) -> (proof:
        ProofOfAction)
        ensures
            proof@.user_id == user_id@,
            proof@.action_type == action_type@,
            proof@.timestamp == timestamp,
            proof@.difficulty == difficulty,
            proof@.authenticity_score == SCORE_ONE,
            proof@.nonce >= 1,
            proof@.proof_hash == proof_digest(proof@),
            proved(proof@) || proof@.nonce == u64::MAX,
            proved(proof@) <==> has_proving_nonce(proof_with_nonce(proof@, 0)),
            proved(proof@) ==> valid_proof(proof@),
            difficulty == 0 ==> proof@.nonce == 1 && proved(proof@),
            forall|n: nat|
                0 < n < proof@.nonce ==> !has_zero_prefix(
                    #[trigger] proof_digest(proof_with_nonce(proof@, n)),
                    difficulty as nat,
                ),
    {
        let mut proof = ProofOfAction {
            user_id: String::from_str(user_id),
            action_type: String::from_str(action_type),
            timestamp,
            proof_hash: String::new(),
            difficulty,
            nonce: 0,
            authenticity_score: SCORE_ONE,
        };
        let ghost start = proof@;
        proof.search_from_next();
        proof {
            assert forall|n: nat| 0 < n < proof@.nonce implies !has_zero_prefix(
                #[trigger] proof_digest(proof_with_nonce(proof@, n)),
                difficulty as nat,
            ) by {
                assert(proof_digest(proof_with_nonce(proof@, n)) == proof_digest(
                    proof_with_nonce(start, n),
                ));
            }
            assert(has_proving_nonce(start) == has_proving_nonce(proof_with_nonce(proof@, 0))) by {
                if has_proving_nonce(start) {
                    let n = choose|n: nat|
                        start.nonce < n <= u64::MAX && has_zero_prefix(
                            #[trigger] proof_digest(proof_with_nonce(start, n)),
                            start.difficulty,
                        );
                    assert(proof_with_nonce(proof_with_nonce(proof@, 0), n) == proof_with_nonce(
                        proof@,
                        n,
                    ));
                    assert(has_zero_prefix(
                        proof_digest(proof_with_nonce(proof_with_nonce(proof@, 0), n)),
                        start.difficulty,
                    ));
                }
                if has_proving_nonce(proof_with_nonce(proof@, 0)) {
                    let zero = proof_with_nonce(proof@, 0);
                    let n = choose|n: nat|
                        zero.nonce < n <= u64::MAX && has_zero_prefix(
                            #[trigger] proof_digest(proof_with_nonce(zero, n)),
                            zero.difficulty,
                        );
                    assert(proof_with_nonce(zero, n) == proof_with_nonce(proof@, n));
                    assert(has_zero_prefix(
                        proof_digest(proof_with_nonce(start, n)),
                        start.difficulty,
                    ));
                }
            }
            if difficulty == 0 {
                assert(has_zero_prefix(proof@.proof_hash, 0));
                if proof@.nonce > 1 {
                    assert(has_zero_prefix(proof_digest(proof_with_nonce(start, 1)), 0));
                }
            }
        }
        proof
    }

    /// Searches for a nonce whose digest starts with `difficulty` zeros.
    ///
    /// A proof that carries the digest of its contents, with enough zeros,
    /// is left as it is. Otherwise the nonce is counted up from the stored
    /// one, the digest is computed for each value, and the search stops at
    /// the first nonce whose digest qualifies. It gives up, and returns
    /// `false`, when the nonce has reached `u64::MAX` without success.
    pub fn generate_proof(&mut self) -> (found: bool)
        ensures
            final(self)@ == (ProofView {
                proof_hash: final(self)@.proof_hash,
                nonce: final(self)@.nonce,
                ..old(self)@
            }),
            found == proved(final(self)@),
            found == (proved(old(self)@) || has_proving_nonce(old(self)@)),
            proved(old(self)@) ==> final(self)@ == old(self)@,
            !found ==> final(self)@.nonce == u64::MAX,
            old(self)@.nonce <= final(self)@.nonce,
            final(self)@.nonce == old(self)@.nonce ==> final(self)@.proof_hash == old(
                self,
            )@.proof_hash,
            final(self)@.nonce > old(self)@.nonce ==> final(self)@.proof_hash == proof_digest(
                final(self)@,
            ) && !proved(old(self)@),
            forall|n: nat|
                old(self)@.nonce < n < final(self)@.nonce ==> !has_zero_prefix(
                    #[trigger] proof_digest(proof_with_nonce(old(self)@, n)),
                    old(self)@.difficulty,
                ),
    {
        if self.carries_proof() {
            return true;
        }
        self.search_from_next()
    }

    /// Whether the proof carries the digest of its contents, with enough
    /// zeros.
    pub fn carries_proof(&self) -> (carried: bool)
        ensures
            carried == proved(self@),
    {
        let mut data: String = self.user_id.clone();
        data.append(self.action_type.as_str());
        data.append(decimal_string(self.timestamp).as_str());
        data.append(decimal_string(self.nonce).as_str());
        let calculated: String = sha256_hex_digest(data.as_str());
        calculated == self.proof_hash && starts_with_zeros(calculated.as_str(), self.difficulty)
    }

    /// Counts the nonce up from the stored one and stops at the first
    /// value whose digest starts with enough zeros, or at `u64::MAX`.
    fn search_from_next(&mut self) -> (found: bool)
        ensures
            final(self)@ == (ProofView {
                proof_hash: final(self)@.proof_hash,
                nonce: final(self)@.nonce,
                ..old(self)@
            }),
            found == has_proving_nonce(old(self)@),
            found ==> proved(final(self)@) && final(self)@.nonce > old(self)@.nonce,
            !found && final(self)@.nonce > old(self)@.nonce ==> !proved(final(self)@),
            !found ==> final(self)@.nonce == u64::MAX,
            old(self)@.nonce <= final(self)@.nonce,
            old(self)@.nonce < u64::MAX ==> old(self)@.nonce < final(self)@.nonce,
            final(self)@.nonce == old(self)@.nonce ==> final(self)@.proof_hash == old(
                self,
            )@.proof_hash,
            final(self)@.nonce > old(self)@.nonce ==> final(self)@.proof_hash == proof_digest(
                final(self)@,
            ),
            forall|n: nat|
                old(self)@.nonce < n < final(self)@.nonce ==> !has_zero_prefix(
                    #[trigger] proof_digest(proof_with_nonce(old(self)@, n)),
                    old(self)@.difficulty,
                ),
    {
        let mut head: String = self.user_id.clone();
        head.append(self.action_type.as_str());
        head.append(decimal_string(self.timestamp).as_str());
        let mut found: bool = false;
        while !found && self.nonce < u64::MAX
            invariant
                self.user_id == old(self).user_id,
                self.action_type == old(self).action_type,
                self.timestamp == old(self).timestamp,
                self.difficulty == old(self).difficulty,
                self.authenticity_score == old(self).authenticity_score,
                head@ == proof_head(old(self)@),
                old(self).nonce <= self.nonce,
                self.nonce == old(self).nonce ==> self.proof_hash == old(self).proof_hash && !found,
                self.nonce > old(self).nonce ==> self.proof_hash@ == proof_digest(self@) && found
                    == has_zero_prefix(self.proof_hash@, self.difficulty as nat),
                forall|n: nat|
                    old(self)@.nonce < n <= self@.nonce && (n < self@.nonce || !found)
                        ==> !has_zero_prefix(
                        #[trigger] proof_digest(proof_with_nonce(old(self)@, n)),
                        old(self)@.difficulty,
                    ),
            decreases u64::MAX - self.nonce,
        {
            self.nonce = self.nonce + 1;
            let mut data: String = head.clone();
            data.append(decimal_string(self.nonce).as_str());
            self.proof_hash = sha256_hex_digest(data.as_str());
            found = starts_with_zeros(self.proof_hash.as_str(), self.difficulty);
        }
        proof {
            if found {
                assert(self@ == (ProofView {
                    proof_hash: self@.proof_hash,
                    ..proof_with_nonce(old(self)@, self@.nonce)
                }));
                assert(has_zero_prefix(
                    proof_digest(proof_with_nonce(old(self)@, self@.nonce)),
                    old(self)@.difficulty,
                ));
            }
        }
        found
    }

    /// Rehashes the proof and checks the stored hash, the leading zeros and
    /// the authenticity floor.
    pub fn validate(&self) -> (valid: bool)
        ensures
            valid == valid_proof(self@),
    {
        self.carries_proof() && self.authenticity_score >= ADMISSION_THRESHOLD
    }

    /// Binds an authenticity score to the proof, limited to at most 1.0.
    pub fn set_authenticity_score(&mut self, score: u64)
        ensures
            final(self)@ == (ProofView {
                authenticity_score: clamp_score(score as nat),
                ..old(self)@
            }),
    {
        self.authenticity_score = clamp_to_unit(score);
    }

    /// The reward that this proof earns.
    pub fn calculate_reward(&self) -> (reward: u64)
        ensures
            reward == proof_reward(
                self@.action_type,
                self@.authenticity_score,
                self@.difficulty,
            ),
            reward >= 1,
    {
        let base: u64 = base_reward_of(self.action_type.as_str());
        let factor: u128 = 10 + self.difficulty as u128;
        let scored: u128 = (base as u128) * (self.authenticity_score as u128);
        assert(scored <= 100 * 0xffff_ffff_ffff_ffff) by (nonlinear_arith)
            requires
                scored == base * self.authenticity_score,
                base <= 100,
                self.authenticity_score <= 0xffff_ffff_ffff_ffff,
        ;
        assert(scored * factor <= 100 * 0xffff_ffff_ffff_ffff * 0x1_0000_0009)
            by (nonlinear_arith)
            requires
                0 <= scored <= 100 * 0xffff_ffff_ffff_ffff,
                0 <= factor <= 0x1_0000_0009,
        ;
        let raw: u128 = scored * factor / (10 * SCORE_ONE as u128);
        if raw < 1 {
            1
        } else if raw > u64::MAX as u128 {
            u64::MAX
        } else {
            raw as u64
        }
    }
}

} // verus!
