//! The reward optimizer: turns aggregate signals into a reward for each
//! action type and a difficulty multiplier.

use crate::ai::fraud_detector::count_of_type;
use crate::ai::pattern::{
    event_views,
    pattern_views,
    ActionEvent,
    GlobalBehaviorStats,
    PatternView,
    UserBehaviorPattern,
};
use crate::bounds::lemma_total_has_room;
use crate::keyed::{find, keys_of, position_of, Keyed};
use crate::score::SCORE_ONE;
use vstd::prelude::*;
use vstd::string::*;

verus! {

/// The number of actions a day at which the difficulty is left as it is.
pub const TARGET_ACTIONS: u64 = 100_000;

/// The number of actions above which rewards are held to press on prices.
pub const INFLATION_FREE_ACTIONS: u64 = 1_000_000;

/// The number of users from which on rewards count as well distributed.
pub const FULL_DISTRIBUTION_USERS: usize = 1000;

/// The smallest economy health: 0.1.
pub const MIN_ECONOMY_HEALTH: u64 = 100_000;

/// The largest economy health: 2.0.
pub const MAX_ECONOMY_HEALTH: u64 = 2_000_000;

/// The smallest difficulty adjustment: 0.5.
pub const MIN_DIFFICULTY: u64 = 500_000;

/// The largest difficulty adjustment: 2.0.
pub const MAX_DIFFICULTY: u64 = 2_000_000;

/// The reward of one action type.
pub struct RewardEntry {
    pub action_type: String,
    pub reward: u64,
}

/// What a reward entry holds, as plain mathematical values.
pub struct RewardEntryView {
    pub action_type: Seq<char>,
    pub reward: nat,
}

impl View for RewardEntry {
    type V = RewardEntryView;

    open spec fn view(&self) -> RewardEntryView {
        RewardEntryView { action_type: self.action_type@, reward: self.reward as nat }
    }
}

impl Keyed for RewardEntry {
    open spec fn key(&self) -> Seq<char> {
        self.action_type@
    }

    fn key_text(&self) -> (text: &String) {
        &self.action_type
    }
}

impl Clone for RewardEntry {
    fn clone(&self) -> (copy: Self)
        ensures
            copy == *self,
    {
        RewardEntry { action_type: self.action_type.clone(), reward: self.reward }
    }
}

/// The views of a sequence of reward entries, in order.
pub open spec fn reward_views(entries: Seq<RewardEntry>) -> Seq<RewardEntryView> {
    entries.map_values(|e: RewardEntry| e@)
}

/// The action types of a sequence of reward entries, in order.
pub open spec fn reward_keys(entries: Seq<RewardEntryView>) -> Seq<Seq<char>> {
    entries.map_values(|e: RewardEntryView| e.action_type)
}

/// The state of the optimizer. The multiplier, the balance and the
/// inflation rate are in millionths.
pub struct RewardOptimizer {
    pub base_rewards: Vec<RewardEntry>,
    pub difficulty_multiplier: u64,
    pub economy_balance: u64,
    pub inflation_rate: u64,
}

/// What the optimizer holds, as plain mathematical values.
pub struct OptimizerView {
    pub base_rewards: Seq<RewardEntryView>,
    pub difficulty_multiplier: nat,
    pub economy_balance: nat,
    pub inflation_rate: nat,
}

impl View for RewardOptimizer {
    type V = OptimizerView;

    open spec fn view(&self) -> OptimizerView {
        OptimizerView {
            base_rewards: reward_views(self.base_rewards@),
            difficulty_multiplier: self.difficulty_multiplier as nat,
            economy_balance: self.economy_balance as nat,
            inflation_rate: self.inflation_rate as nat,
        }
    }
}

/// The result of one optimization pass.
pub struct RewardOptimization {
    pub optimized_rewards: Vec<RewardEntry>,
    pub difficulty_adjustment: u64,
    pub economy_health: u64,
    pub recommended_changes: Vec<String>,
}

/// `value` limited to the range from `low` to `high`.
pub open spec fn clamp(value: int, low: nat, high: nat) -> nat {
    if value < low {
        low
    } else if value > high {
        high
    } else {
        value as nat
    }
}

/// The rewards on which a new optimizer starts.
pub open spec fn default_base_rewards() -> Seq<RewardEntryView> {
    seq![
        RewardEntryView { action_type: "click"@, reward: 5 },
        RewardEntryView { action_type: "scroll"@, reward: 2 },
        RewardEntryView { action_type: "share"@, reward: 25 },
        RewardEntryView { action_type: "form_submit"@, reward: 50 },
        RewardEntryView { action_type: "referral"@, reward: 100 },
        RewardEntryView { action_type: "daily_login"@, reward: 20 },
    ]
}

/// The state on which a new optimizer starts: the default rewards, a
/// balanced economy, and an inflation target of two percent.
pub open spec fn default_optimizer() -> OptimizerView {
    OptimizerView {
        base_rewards: default_base_rewards(),
        difficulty_multiplier: SCORE_ONE as nat,
        economy_balance: SCORE_ONE as nat,
        inflation_rate: 20_000,
    }
}

/// The economy health in millionths:
/// `(1 - fraud_rate / 2) * distribution / inflation`, limited to the range
/// from 0.1 to 2.0. The distribution is `active_users / 1000`, at most 1.
/// The inflation is `1 + total_actions / 10^7` above a million actions
/// and 1 up to there.
pub open spec fn economy_health(fraud_rate: nat, active_users: nat, total_actions: nat) -> nat {
    let impact_twice: int = 2 * SCORE_ONE - fraud_rate;
    let users: int = if active_users > FULL_DISTRIBUTION_USERS {
        FULL_DISTRIBUTION_USERS as int
    } else {
        active_users as int
    };
    let raw: int = if total_actions > INFLATION_FREE_ACTIONS {
        (impact_twice * users * 10_000_000) / (2000 * (10_000_000 + total_actions as int))
    } else {
        (impact_twice * users) / 2000
    };
    clamp(raw, MIN_ECONOMY_HEALTH as nat, MAX_ECONOMY_HEALTH as nat)
}

/// The difficulty adjustment in millionths. With `ratio` for
/// `total_actions / 100000`, it is `1 + (ratio - 1) / 10` above the target
/// and `0.9 + ratio / 10` up to it, limited to the range from 0.5 to 2.0.
pub open spec fn difficulty_adjustment(total_actions: nat) -> nat {
    let raw: int = if total_actions > TARGET_ACTIONS {
        SCORE_ONE + (total_actions - TARGET_ACTIONS)
    } else {
        900_000 + total_actions as int
    };
    clamp(raw, MIN_DIFFICULTY as nat, MAX_DIFFICULTY as nat)
}

/// The number of recorded actions of type `action_type` of all users.
pub open spec fn actions_of_type(patterns: Seq<PatternView>, action_type: Seq<char>) -> nat
    decreases patterns.len(),
{
    if patterns.len() == 0 {
        0
    } else {
        actions_of_type(patterns.drop_last(), action_type) + count_of_type(
            patterns.last().action_history,
            action_type,
        )
    }
}

/// The multiplier, in tenths, for an action type with `count` of
/// `total_actions` actions: 0.8 above half of all actions, 1.0 above a
/// fifth, 1.2 above a twentieth, otherwise 1.5. Without any action the
/// share is zero.
pub open spec fn frequency_multiplier(count: nat, total_actions: nat) -> nat {
    if total_actions > 0 && 2 * count > total_actions {
        8
    } else if total_actions > 0 && 5 * count > total_actions {
        10
    } else if total_actions > 0 && 20 * count > total_actions {
        12
    } else {
        15
    }
}

/// The reward `base * multiplier * economy_balance * difficulty_multiplier`,
/// the multiplier in tenths and the two others in millionths, rounded down,
/// at least one unit and at most `u64::MAX`.
pub open spec fn scaled_reward(
    base: nat,
    multiplier: nat,
    economy_balance: nat,
    difficulty_multiplier: nat,
) -> nat {
    clamp(
        ((base * multiplier * economy_balance * difficulty_multiplier) / 10_000_000_000_000) as int,
        1,
        u64::MAX as nat,
    )
}

/// The optimized reward of one entry of the base table.
pub open spec fn optimized_entry(
    entry: RewardEntryView,
    patterns: Seq<PatternView>,
    total_actions: nat,
    economy_balance: nat,
    difficulty_multiplier: nat,
) -> RewardEntryView {
    RewardEntryView {
        action_type: entry.action_type,
        reward: scaled_reward(
            entry.reward,
            frequency_multiplier(actions_of_type(patterns, entry.action_type), total_actions),
            economy_balance,
            difficulty_multiplier,
        ),
    }
}

/// The optimized rewards: one entry for each entry of the base table, in
/// its order.
pub open spec fn optimized_rewards(
    base_rewards: Seq<RewardEntryView>,
    patterns: Seq<PatternView>,
    total_actions: nat,
    economy_balance: nat,
    difficulty_multiplier: nat,
) -> Seq<RewardEntryView> {
    base_rewards.map_values(
        |entry: RewardEntryView|
            optimized_entry(entry, patterns, total_actions, economy_balance, difficulty_multiplier),
    )
}

/// Without any action every action type counts as rare: the multiplier is
/// 1.5, and the optimized reward is `base * 1.5 * economy_balance *
/// difficulty_multiplier`, rounded down and at least one unit.
pub proof fn lemma_no_actions_rare_bonus(
    entry: RewardEntryView,
    patterns: Seq<PatternView>,
    economy_balance: nat,
    difficulty_multiplier: nat,
)
    ensures
        frequency_multiplier(actions_of_type(patterns, entry.action_type), 0) == 15,
        optimized_entry(entry, patterns, 0, economy_balance, difficulty_multiplier).reward == clamp(
            ((entry.reward * 15 * economy_balance * difficulty_multiplier)
                / 10_000_000_000_000) as int,
            1,
            u64::MAX as nat,
        ),
        optimized_entry(entry, patterns, 0, economy_balance, difficulty_multiplier).reward >= 1,
{
}

/// What is said of an economy health below 0.8.
pub open spec fn advice_reduce_rewards() -> Seq<char> {
    "Consider reducing base reward rates to control inflation"@
}

/// What is said of an economy health above 1.2.
pub open spec fn advice_increase_rewards() -> Seq<char> {
    "Economy is stable - consider increasing rewards to boost participation"@
}

/// What is said of a difficulty adjustment above 1.1.
pub open spec fn advice_raise_difficulty() -> Seq<char> {
    "High activity detected - increase mining difficulty to balance rewards"@
}

/// What is said of a difficulty adjustment below 0.9.
pub open spec fn advice_lower_difficulty() -> Seq<char> {
    "Low activity detected - consider reducing difficulty or increasing rewards"@
}

/// What is said when nothing else is.
pub open spec fn advice_balanced() -> Seq<char> {
    "Economy is well-balanced - maintain current reward structure"@
}

/// The recommendations for an economy health and a difficulty adjustment:
/// at most one on each, and the balanced message when there is none.
pub open spec fn recommendations(health: nat, difficulty: nat) -> Seq<Seq<char>> {
    let on_health: Seq<Seq<char>> = if health < 800_000 {
        seq![advice_reduce_rewards()]
    } else if health > 1_200_000 {
        seq![advice_increase_rewards()]
    } else {
        Seq::empty()
    };
    let on_difficulty: Seq<Seq<char>> = if difficulty > 1_100_000 {
        seq![advice_raise_difficulty()]
    } else if difficulty < 900_000 {
        seq![advice_lower_difficulty()]
    } else {
        Seq::empty()
    };
    if on_health.len() + on_difficulty.len() == 0 {
        seq![advice_balanced()]
    } else {
        on_health + on_difficulty
    }
}

/// The base table after the reward of `action_type` was set to `reward`:
/// the entry of the type is replaced, or a new entry comes last.
pub open spec fn with_base_reward(
    base_rewards: Seq<RewardEntryView>,
    action_type: Seq<char>,
    reward: nat,
) -> Seq<RewardEntryView> {
    match position_of(reward_keys(base_rewards), action_type) {
        Some(i) => base_rewards.update(i, RewardEntryView { action_type, reward }),
        None => base_rewards.push(RewardEntryView { action_type, reward }),
    }
}

/// Counts the recorded actions of type `action_type` of all users.
pub fn count_actions_of_type(patterns: &[UserBehaviorPattern], action_type: &str) -> (count: u128)
    ensures
        count == actions_of_type(pattern_views(patterns@), action_type@),
{
    let ghost views = pattern_views(patterns@);
    let wanted: String = String::from_str(action_type);
    let mut count: u128 = 0;
    let mut i: usize = 0;
    while i < patterns.len()
        invariant
            i <= patterns.len(),
            views == pattern_views(patterns@),
            wanted@ == action_type@,
            count == actions_of_type(views.take(i as int), action_type@),
            count <= i * usize::MAX,
        decreases patterns.len() - i,
    {
        let history: &Vec<ActionEvent> = &patterns[i].action_history;
        let ghost events = event_views(history@);
        let mut matching: usize = 0;
        let mut j: usize = 0;
        while j < history.len()
            invariant
                j <= history.len(),
                events == event_views(history@),
                wanted@ == action_type@,
                matching == count_of_type(events.take(j as int), action_type@),
                matching <= j,
            decreases history.len() - j,
        {
            proof {
                assert(events.take(j + 1).drop_last() =~= events.take(j as int));
            }
            if history[j].action_type == wanted {
                matching = matching + 1;
            }
            j = j + 1;
        }
        proof {
            assert(events.take(history.len() as int) =~= events);
            assert(views.take(i + 1).drop_last() =~= views.take(i as int));
            lemma_total_has_room(i as nat, usize::MAX as nat);
        }
        count = count + matching as u128;
        i = i + 1;
    }
    assert(views.take(patterns.len() as int) =~= views);
    count
}

/// The multiplier, in tenths, for an action type with `count` of
/// `total_actions` actions.
pub fn frequency_multiplier_of(count: u128, total_actions: u64) -> (multiplier: u64)
    ensures
        multiplier == frequency_multiplier(count as nat, total_actions as nat),
        8 <= multiplier <= 15,
{
    let total: u128 = total_actions as u128;
    if total == 0 {
        return 15;
    }
    // k * count > total exactly when count > total / k.
    if count > total / 2 {
        8
    } else if count > total / 5 {
        10
    } else if count > total / 20 {
        12
    } else {
        15
    }
}

/// The reward `base * multiplier * economy_balance * difficulty_multiplier`
/// in whole units.
pub fn scale_reward(base: u64, multiplier: u64, economy_balance: u64, difficulty_multiplier: u64) -> (reward:
    u64)
    requires
        multiplier <= 15,
    ensures
        reward == scaled_reward(
            base as nat,
            multiplier as nat,
            economy_balance as nat,
            difficulty_multiplier as nat,
        ),
        reward >= 1,
{
    let ghost product: nat = (base as nat) * (multiplier as nat) * (economy_balance as nat) * (
    difficulty_multiplier as nat);
    if base == 0 || multiplier == 0 || economy_balance == 0 || difficulty_multiplier == 0 {
        assert(product == 0) by (nonlinear_arith)
            requires
                product == base * multiplier * economy_balance * difficulty_multiplier,
                base == 0 || multiplier == 0 || economy_balance == 0 || difficulty_multiplier == 0,
        ;
        return 1;
    }
    assert(base * multiplier <= 15 * 0xffff_ffff_ffff_ffff) by (nonlinear_arith)
        requires
            base <= 0xffff_ffff_ffff_ffff,
            multiplier <= 15,
    ;
    let first: u128 = (base as u128) * (multiplier as u128);
    let second: u128 = match first.checked_mul(economy_balance as u128) {
        Some(value) => value,
        None => {
            assert(product / 10_000_000_000_000 > u64::MAX) by (nonlinear_arith)
                requires
                    product == first * economy_balance * difficulty_multiplier,
                    first * economy_balance > u128::MAX,
                    difficulty_multiplier >= 1,
                    first >= 0,
                    economy_balance >= 0,
            ;
            return u64::MAX;
        },
    };
    let third: u128 = match second.checked_mul(difficulty_multiplier as u128) {
        Some(value) => value,
        None => {
            assert(product / 10_000_000_000_000 > u64::MAX) by (nonlinear_arith)
                requires
                    product == second * difficulty_multiplier,
                    second * difficulty_multiplier > u128::MAX,
            ;
            return u64::MAX;
        },
    };
    let raw: u128 = third / 10_000_000_000_000;
    if raw < 1 {
        1
    } else if raw > u64::MAX as u128 {
        u64::MAX
    } else {
        raw as u64
    }
}

impl RewardOptimizer {
    /// An optimizer with the default base rewards, a balanced economy and
    /// an inflation target of two percent.
    pub fn new() -> (optimizer: RewardOptimizer)
        ensures
            optimizer@ == default_optimizer(),
    {
        let mut base_rewards: Vec<RewardEntry> = Vec::new();
        base_rewards.push(RewardEntry { action_type: String::from_str("click"), reward: 5 });
        base_rewards.push(RewardEntry { action_type: String::from_str("scroll"), reward: 2 });
        base_rewards.push(RewardEntry { action_type: String::from_str("share"), reward: 25 });
        base_rewards.push(
            RewardEntry { action_type: String::from_str("form_submit"), reward: 50 },
        );
        base_rewards.push(RewardEntry { action_type: String::from_str("referral"), reward: 100 });
        base_rewards.push(
            RewardEntry { action_type: String::from_str("daily_login"), reward: 20 },
        );
        assert(reward_views(base_rewards@) =~= default_base_rewards());
        RewardOptimizer {
            base_rewards,
            difficulty_multiplier: SCORE_ONE,
            economy_balance: SCORE_ONE,
            inflation_rate: 20_000,
        }
    }

    /// One optimization pass: the economy health and the difficulty
    /// adjustment are computed and stored as the balance and the
    /// multiplier, and the rewards are computed with them.
    pub fn calculate_optimal_rewards(
        &mut self,
        user_patterns: &[UserBehaviorPattern],
        global_stats: &GlobalBehaviorStats,
    ) -> (optimization: RewardOptimization)
        ensures
            optimization.economy_health == economy_health(
                global_stats@.fraud_rate,
                user_patterns@.len(),
                global_stats@.total_actions,
            ),
            optimization.difficulty_adjustment == difficulty_adjustment(
                global_stats@.total_actions,
            ),
            reward_views(optimization.optimized_rewards@) == optimized_rewards(
                old(self)@.base_rewards,
                pattern_views(user_patterns@),
                global_stats@.total_actions,
                optimization.economy_health as nat,
                optimization.difficulty_adjustment as nat,
            ),
            crate::text::texts(optimization.recommended_changes@) == recommendations(
                optimization.economy_health as nat,
                optimization.difficulty_adjustment as nat,
            ),
            final(self)@ == (OptimizerView {
                difficulty_multiplier: optimization.difficulty_adjustment as nat,
                economy_balance: optimization.economy_health as nat,
                ..old(self)@
            }),
    {
        let economy_health: u64 = self.analyze_economy_health(user_patterns.len(), global_stats);
        let difficulty_adjustment: u64 = self.calculate_difficulty_adjustment(global_stats);
        self.difficulty_multiplier = difficulty_adjustment;
        self.economy_balance = economy_health;
        let optimized_rewards: Vec<RewardEntry> = self.optimize_action_rewards(
            user_patterns,
            global_stats,
        );
        let recommended_changes: Vec<String> = self.generate_recommendations(
            economy_health,
            difficulty_adjustment,
        );
        RewardOptimization {
            optimized_rewards,
            difficulty_adjustment,
            economy_health,
            recommended_changes,
        }
    }

    /// The economy health for `active_users` users and the aggregates
    /// `global_stats`.
    pub fn analyze_economy_health(&self, active_users: usize, global_stats: &GlobalBehaviorStats) -> (health:
        u64)
        ensures
            health == economy_health(
                global_stats@.fraud_rate,
                active_users as nat,
                global_stats@.total_actions,
            ),
            MIN_ECONOMY_HEALTH <= health <= MAX_ECONOMY_HEALTH,
    {
        let users: u128 = if active_users > FULL_DISTRIBUTION_USERS {
            FULL_DISTRIBUTION_USERS as u128
        } else {
            active_users as u128
        };
        let total: u128 = global_stats.total_actions as u128;
        if global_stats.fraud_rate >= 2 * SCORE_ONE {
            proof {
                let impact_twice: int = 2 * SCORE_ONE - global_stats.fraud_rate;
                assert(impact_twice * users <= 0 && impact_twice * users * 10_000_000 <= 0)
                    by (nonlinear_arith)
                    requires
                        impact_twice <= 0,
                        users >= 0,
                ;
                assert((impact_twice * users * 10_000_000) / (2000 * (10_000_000 + total)) <= 0)
                    by (nonlinear_arith)
                    requires
                        impact_twice * users * 10_000_000 <= 0,
                        total >= 0,
                ;
            }
            return MIN_ECONOMY_HEALTH;
        }
        let impact_twice: u128 = (2 * SCORE_ONE - global_stats.fraud_rate) as u128;
        assert(impact_twice * users <= 2_000_000 * 1000) by (nonlinear_arith)
            requires
                impact_twice <= 2_000_000,
                users <= 1000,
        ;
        let weighted: u128 = impact_twice * users;
        let raw: u128 = if global_stats.total_actions > INFLATION_FREE_ACTIONS {
            weighted * 10_000_000 / (2000 * (10_000_000 + total))
        } else {
            weighted / 2000
        };
        if raw < MIN_ECONOMY_HEALTH as u128 {
            MIN_ECONOMY_HEALTH
        } else if raw > MAX_ECONOMY_HEALTH as u128 {
            MAX_ECONOMY_HEALTH
        } else {
            raw as u64
        }
    }

    /// The difficulty adjustment for the aggregates `global_stats`.
    pub fn calculate_difficulty_adjustment(&self, global_stats: &GlobalBehaviorStats) -> (adjustment:
        u64)
        ensures
            adjustment == difficulty_adjustment(global_stats@.total_actions),
            MIN_DIFFICULTY <= adjustment <= MAX_DIFFICULTY,
    {
        let total: u128 = global_stats.total_actions as u128;
        let raw: u128 = if global_stats.total_actions > TARGET_ACTIONS {
            SCORE_ONE as u128 + (total - TARGET_ACTIONS as u128)
        } else {
            900_000 + total
        };
        if raw < MIN_DIFFICULTY as u128 {
            MIN_DIFFICULTY
        } else if raw > MAX_DIFFICULTY as u128 {
            MAX_DIFFICULTY
        } else {
            raw as u64
        }
    }

    /// The optimized reward of every entry of the base table, computed
    /// with the stored balance and multiplier.
    pub fn optimize_action_rewards(
        &self,
        user_patterns: &[UserBehaviorPattern],
        global_stats: &GlobalBehaviorStats,
    ) -> (rewards: Vec<RewardEntry>)
        ensures
            reward_views(rewards@) == optimized_rewards(
                self@.base_rewards,
                pattern_views(user_patterns@),
                global_stats@.total_actions,
                self@.economy_balance,
                self@.difficulty_multiplier,
            ),
    {
        let mut rewards: Vec<RewardEntry> = Vec::new();
        let mut i: usize = 0;
        while i < self.base_rewards.len()
            invariant
                i <= self.base_rewards.len(),
                rewards@.len() == i,
                forall|j: int|
                    0 <= j < i ==> (#[trigger] rewards@[j])@ == optimized_entry(
                        self.base_rewards@[j]@,
                        pattern_views(user_patterns@),
                        global_stats@.total_actions,
                        self@.economy_balance,
                        self@.difficulty_multiplier,
                    ),
            decreases self.base_rewards.len() - i,
        {
            let entry: &RewardEntry = &self.base_rewards[i];
            let count: u128 = count_actions_of_type(user_patterns, entry.action_type.as_str());
            let multiplier: u64 = frequency_multiplier_of(count, global_stats.total_actions);
            let reward: u64 = scale_reward(
                entry.reward,
                multiplier,
                self.economy_balance,
                self.difficulty_multiplier,
            );
            rewards.push(RewardEntry { action_type: entry.action_type.clone(), reward });
            i = i + 1;
        }
        rewards
    }

    /// The recommendations for an economy health and a difficulty
    /// adjustment.
    pub fn generate_recommendations(&self, economy_health: u64, difficulty_adjustment: u64) -> (advice:
        Vec<String>)
        ensures
            crate::text::texts(advice@) == recommendations(
                economy_health as nat,
                difficulty_adjustment as nat,
            ),
    {
        let mut advice: Vec<String> = Vec::new();
        if economy_health < 800_000 {
            advice.push(
                String::from_str("Consider reducing base reward rates to control inflation"),
            );
        } else if economy_health > 1_200_000 {
            advice.push(
                String::from_str(
                    "Economy is stable - consider increasing rewards to boost participation",
                ),
            );
        }
        if difficulty_adjustment > 1_100_000 {
            advice.push(
                String::from_str(
                    "High activity detected - increase mining difficulty to balance rewards",
                ),
            );
        } else if difficulty_adjustment < 900_000 {
            advice.push(
                String::from_str(
                    "Low activity detected - consider reducing difficulty or increasing rewards",
                ),
            );
        }
        if advice.len() == 0 {
            advice.push(
                String::from_str("Economy is well-balanced - maintain current reward structure"),
            );
        }
        advice
    }

    /// The base rewards, one entry for each action type.
    pub fn get_current_rewards(&self) -> (rewards: Vec<RewardEntry>)
        ensures
            reward_views(rewards@) == self@.base_rewards,
    {
        let rewards: Vec<RewardEntry> = self.base_rewards.clone();
        rewards
    }

    /// Sets the base reward of `action_type`.
    pub fn update_base_reward(&mut self, action_type: &str, reward: u64)
        ensures
            final(self)@ == (OptimizerView {
                base_rewards: with_base_reward(
                    old(self)@.base_rewards,
                    action_type@,
                    reward as nat,
                ),
                ..old(self)@
            }),
    {
        assert(keys_of(self.base_rewards@) =~= reward_keys(self@.base_rewards));
        let entry = RewardEntry { action_type: String::from_str(action_type), reward };
        match find(self.base_rewards.as_slice(), action_type) {
            Some(i) => {
                self.base_rewards.set(i, entry);
                assert(self@.base_rewards =~= old(self)@.base_rewards.update(i as int, entry@));
            },
            None => {
                self.base_rewards.push(entry);
                assert(self@.base_rewards =~= old(self)@.base_rewards.push(entry@));
            },
        }
    }
}

} // verus!
