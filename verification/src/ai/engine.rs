//! The analysis pipeline: scores each action, records it in the user's
//! behaviour pattern, and keeps the aggregates.

use crate::ai::fraud_detector::{authenticity, FraudDetector};
use crate::ai::pattern::{
    fresh_pattern,
    pattern_views,
    recorded,
    user_ids,
    GlobalBehaviorStats,
    PatternView,
    StatsView,
    UserBehaviorPattern,
};
use crate::ai::reward_optimizer::{
    default_optimizer,
    difficulty_adjustment,
    economy_health,
    optimized_rewards,
    recommendations,
    reward_views,
    OptimizerView,
    RewardOptimization,
    RewardOptimizer,
};
use crate::text::texts;
use crate::keyed::{find, keys_of, position_of};
use crate::score::SCORE_ONE;
use vstd::prelude::*;
use vstd::string::*;

verus! {

/// A reputation below this value, 0.6, marks a user as suspicious.
pub const SUSPICIOUS_REPUTATION: u64 = 600_000;

/// More suspicious events than this mark a user as suspicious.
pub const SUSPICIOUS_EVENT_LIMIT: u32 = 10;

/// The fraud rate on which the aggregates start: five percent.
pub const BASELINE_FRAUD_RATE: u64 = 50_000;

/// The average authenticity on which the aggregates start: 0.85.
pub const BASELINE_AUTHENTICITY: u64 = 850_000;

/// The engine: the detector, the optimizer, the pattern of every user seen,
/// in the order of their first action, and the aggregates.
pub struct AIConsensus {
    pub fraud_detector: FraudDetector,
    pub reward_optimizer: RewardOptimizer,
    pub action_patterns: Vec<UserBehaviorPattern>,
    pub global_stats: GlobalBehaviorStats,
}

/// What the engine holds, as plain mathematical values.
pub struct EngineView {
    pub fraud_detector: FraudDetector,
    pub reward_optimizer: OptimizerView,
    pub action_patterns: Seq<PatternView>,
    pub global_stats: StatsView,
}

impl View for AIConsensus {
    type V = EngineView;

    open spec fn view(&self) -> EngineView {
        EngineView {
            fraud_detector: self.fraud_detector,
            reward_optimizer: self.reward_optimizer@,
            action_patterns: pattern_views(self.action_patterns@),
            global_stats: self.global_stats@,
        }
    }
}

/// The figures that describe the engine at a glance. The rates are in
/// millionths.
pub struct AIStats {
    pub total_users_analyzed: usize,
    pub total_actions_processed: u64,
    pub current_fraud_rate: u64,
    pub average_authenticity: u64,
    pub suspicious_users: usize,
}

/// The pattern of `user_id` among `patterns`, or a fresh one.
pub open spec fn pattern_of(patterns: Seq<PatternView>, user_id: Seq<char>) -> PatternView {
    match position_of(user_ids(patterns), user_id) {
        Some(i) => patterns[i],
        None => fresh_pattern(user_id),
    }
}

/// `patterns` with the pattern of `user_id` replaced by `updated`, or with
/// `updated` added last for a user not seen before.
pub open spec fn with_pattern(
    patterns: Seq<PatternView>,
    user_id: Seq<char>,
    updated: PatternView,
) -> Seq<PatternView> {
    match position_of(user_ids(patterns), user_id) {
        Some(i) => patterns.update(i, updated),
        None => patterns.push(updated),
    }
}

/// The aggregates after one more action with the authenticity score
/// `score`: the average moves a thousandth of the way towards the score.
pub open spec fn stats_after(stats: StatsView, score: nat) -> StatsView {
    StatsView {
        total_actions: stats.total_actions + 1,
        average_authenticity: (999 * stats.average_authenticity + score) / 1000,
        ..stats
    }
}

/// A user is suspicious with a reputation below 0.6, with more than ten
/// suspicious events, or when more than three in ten of the user's actions
/// were suspicious.
pub open spec fn suspicious(p: PatternView) -> bool {
    ||| p.reputation_score < SUSPICIOUS_REPUTATION
    ||| p.suspicious_events > SUSPICIOUS_EVENT_LIMIT
    ||| 10 * p.suspicious_events > 3 * p.total_actions
}

/// The number of patterns with a reputation below 0.6.
pub open spec fn count_low_reputation(patterns: Seq<PatternView>) -> nat
    decreases patterns.len(),
{
    if patterns.len() == 0 {
        0
    } else {
        count_low_reputation(patterns.drop_last()) + if patterns.last().reputation_score
            < SUSPICIOUS_REPUTATION {
            1nat
        } else {
            0nat
        }
    }
}

/// Every counter that recording an action counts up has room for one more.
pub open spec fn counters_have_room(engine: EngineView) -> bool {
    &&& engine.global_stats.total_actions < u64::MAX
    &&& forall|i: int|
        0 <= i < engine.action_patterns.len() ==> (#[trigger] engine.action_patterns[i]).total_actions
            < u64::MAX && engine.action_patterns[i].suspicious_events < u32::MAX
}

impl AIConsensus {
    /// An engine that has seen no user yet.
    pub fn new() -> (engine: AIConsensus)
        ensures
            engine@.action_patterns.len() == 0,
            engine@.fraud_detector == FraudDetector::default_thresholds(),
            engine@.reward_optimizer == default_optimizer(),
            engine@.global_stats == (StatsView {
                total_users: 0,
                total_actions: 0,
                fraud_rate: BASELINE_FRAUD_RATE as nat,
                average_authenticity: BASELINE_AUTHENTICITY as nat,
                peak_activity_times: Seq::empty(),
            }),
            counters_have_room(engine@),
    {
        AIConsensus {
            fraud_detector: FraudDetector::new(),
            reward_optimizer: RewardOptimizer::new(),
            action_patterns: Vec::new(),
            global_stats: GlobalBehaviorStats {
                total_users: 0,
                total_actions: 0,
                fraud_rate: BASELINE_FRAUD_RATE,
                average_authenticity: BASELINE_AUTHENTICITY,
                peak_activity_times: Vec::new(),
            },
        }
    }

    /// Scores an action and records it. Returns the authenticity score in
    /// millionths. A user not seen before starts on a fresh pattern.
    pub fn analyze_action(
        &mut self,
        user_id: &str,
        action_type: &str,
        timestamp: u64,
        device_fingerprint: &str,
    ) -> (score: u64)
        requires
            counters_have_room(old(self)@),
        ensures
            score == authenticity(
                old(self)@.fraud_detector,
                pattern_of(old(self)@.action_patterns, user_id@),
                action_type@,
                timestamp as nat,
                device_fingerprint@,
            ),
            score <= SCORE_ONE,
            final(self)@ == (EngineView {
                action_patterns: with_pattern(
                    old(self)@.action_patterns,
                    user_id@,
                    recorded(
                        pattern_of(old(self)@.action_patterns, user_id@),
                        action_type@,
                        timestamp as nat,
                        device_fingerprint@,
                        score as nat,
                    ),
                ),
                global_stats: stats_after(old(self)@.global_stats, score as nat),
                ..old(self)@
            }),
    {
        assert(keys_of(self.action_patterns@) =~= user_ids(self@.action_patterns));
        let found: Option<usize> = find(self.action_patterns.as_slice(), user_id);
        let index: usize = match found {
            Some(i) => i,
            None => {
                self.action_patterns.push(UserBehaviorPattern::new(user_id));
                self.action_patterns.len() - 1
            },
        };
        let ghost before = pattern_of(old(self)@.action_patterns, user_id@);
        let score: u64 = self.fraud_detector.analyze_action(
            &self.action_patterns[index],
            action_type,
            timestamp,
            device_fingerprint,
        );
        self.action_patterns[index].record(action_type, timestamp, device_fingerprint, score);
        self.global_stats.total_actions = self.global_stats.total_actions + 1;
        let blended: u128 = 999 * (self.global_stats.average_authenticity as u128) + score as u128;
        self.global_stats.average_authenticity = (blended / 1000) as u64;
        proof {
            let after = recorded(
                before,
                action_type@,
                timestamp as nat,
                device_fingerprint@,
                score as nat,
            );
            assert(self@.action_patterns =~= with_pattern(
                old(self)@.action_patterns,
                user_id@,
                after,
            ));
        }
        score
    }

    /// One optimization pass of the reward optimizer over everything the
    /// engine has recorded.
    pub fn optimize_rewards(&mut self) -> (optimization: RewardOptimization)
        ensures
            optimization.economy_health == economy_health(
                old(self)@.global_stats.fraud_rate,
                old(self)@.action_patterns.len(),
                old(self)@.global_stats.total_actions,
            ),
            optimization.difficulty_adjustment == difficulty_adjustment(
                old(self)@.global_stats.total_actions,
            ),
            reward_views(optimization.optimized_rewards@) == optimized_rewards(
                old(self)@.reward_optimizer.base_rewards,
                old(self)@.action_patterns,
                old(self)@.global_stats.total_actions,
                optimization.economy_health as nat,
                optimization.difficulty_adjustment as nat,
            ),
            texts(optimization.recommended_changes@) == recommendations(
                optimization.economy_health as nat,
                optimization.difficulty_adjustment as nat,
            ),
            final(self)@ == (EngineView {
                reward_optimizer: OptimizerView {
                    difficulty_multiplier: optimization.difficulty_adjustment as nat,
                    economy_balance: optimization.economy_health as nat,
                    ..old(self)@.reward_optimizer
                },
                ..old(self)@
            }),
    {
        self.reward_optimizer.calculate_optimal_rewards(
            self.action_patterns.as_slice(),
            &self.global_stats,
        )
    }

    /// The reputation of `user_id` in millionths: 1.0 for a user not seen.
    pub fn get_user_reputation(&self, user_id: &str) -> (reputation: u64)
        ensures
            reputation == pattern_of(self@.action_patterns, user_id@).reputation_score,
    {
        assert(keys_of(self.action_patterns@) =~= user_ids(self@.action_patterns));
        match find(self.action_patterns.as_slice(), user_id) {
            Some(i) => self.action_patterns[i].reputation_score,
            None => SCORE_ONE,
        }
    }

    /// Whether `user_id` is suspicious. A user not seen is not.
    pub fn is_user_suspicious(&self, user_id: &str) -> (flagged: bool)
        ensures
            flagged == (position_of(user_ids(self@.action_patterns), user_id@) is Some
                && suspicious(pattern_of(self@.action_patterns, user_id@))),
    {
        assert(keys_of(self.action_patterns@) =~= user_ids(self@.action_patterns));
        match find(self.action_patterns.as_slice(), user_id) {
            Some(i) => {
                let pattern: &UserBehaviorPattern = &self.action_patterns[i];
                pattern.reputation_score < SUSPICIOUS_REPUTATION || pattern.suspicious_events
                    > SUSPICIOUS_EVENT_LIMIT || 10 * (pattern.suspicious_events as u128) > 3 * (
                pattern.total_actions as u128)
            },
            None => false,
        }
    }

    /// The figures that describe the engine.
    pub fn get_ai_stats(&self) -> (stats: AIStats)
        ensures
            stats.total_users_analyzed == self@.action_patterns.len(),
            stats.total_actions_processed == self@.global_stats.total_actions,
            stats.current_fraud_rate == self@.global_stats.fraud_rate,
            stats.average_authenticity == self@.global_stats.average_authenticity,
            stats.suspicious_users == count_low_reputation(self@.action_patterns),
    {
        let ghost views = pattern_views(self.action_patterns@);
        let mut low: usize = 0;
        let mut i: usize = 0;
        while i < self.action_patterns.len()
            invariant
                i <= self.action_patterns.len(),
                views == pattern_views(self.action_patterns@),
                low == count_low_reputation(views.take(i as int)),
                low <= i,
            decreases self.action_patterns.len() - i,
        {
            proof {
                assert(views.take(i + 1).drop_last() =~= views.take(i as int));
            }
            if self.action_patterns[i].reputation_score < SUSPICIOUS_REPUTATION {
                low = low + 1;
            }
            i = i + 1;
        }
        assert(views.take(self.action_patterns.len() as int) =~= views);
        AIStats {
            total_users_analyzed: self.action_patterns.len(),
            total_actions_processed: self.global_stats.total_actions,
            current_fraud_rate: self.global_stats.fraud_rate,
            average_authenticity: self.global_stats.average_authenticity,
            suspicious_users: low,
        }
    }

    /// Restores the reputation of `user_id` to 1.0 and forgets the user's
    /// suspicious events. Nothing changes for a user not seen.
    pub fn reset_user_reputation(&mut self, user_id: &str)
        ensures
            final(self)@ == (EngineView {
                action_patterns: match position_of(user_ids(old(self)@.action_patterns), user_id@) {
                    Some(i) => old(self)@.action_patterns.update(
                        i,
                        PatternView {
                            reputation_score: SCORE_ONE as nat,
                            suspicious_events: 0,
                            ..old(self)@.action_patterns[i]
                        },
                    ),
                    None => old(self)@.action_patterns,
                },
                ..old(self)@
            }),
    {
        assert(keys_of(self.action_patterns@) =~= user_ids(self@.action_patterns));
        match find(self.action_patterns.as_slice(), user_id) {
            Some(i) => {
                self.action_patterns[i].reputation_score = SCORE_ONE;
                self.action_patterns[i].suspicious_events = 0;
                assert(self@.action_patterns =~= old(self)@.action_patterns.update(
                    i as int,
                    PatternView {
                        reputation_score: SCORE_ONE as nat,
                        suspicious_events: 0,
                        ..old(self)@.action_patterns[i as int]
                    },
                ));
            },
            None => {},
        }
    }
}

} // verus!
