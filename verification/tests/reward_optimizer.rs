use bitnun::ai::reward_optimizer::{count_actions_of_type, frequency_multiplier_of, scale_reward};
use bitnun::ai::{ActionEvent, GlobalBehaviorStats, RewardOptimizer, UserBehaviorPattern};

fn stats(total_actions: u64, fraud_rate: u64) -> GlobalBehaviorStats {
    GlobalBehaviorStats {
        total_users: 0,
        total_actions,
        fraud_rate,
        average_authenticity: 850_000,
        peak_activity_times: Vec::new(),
    }
}

fn user(name: &str, actions: &[&str]) -> UserBehaviorPattern {
    let mut pattern = UserBehaviorPattern::new(name);
    for action_type in actions {
        pattern.action_history.push(ActionEvent {
            action_type: action_type.to_string(),
            timestamp: 0,
            authenticity_score: 1_000_000,
            device_fingerprint: "dev".to_string(),
        });
    }
    pattern
}

fn rewards_of(optimizer: &RewardOptimizer) -> Vec<(String, u64)> {
    optimizer
        .get_current_rewards()
        .iter()
        .map(|e| (e.action_type.clone(), e.reward))
        .collect()
}

#[test]
fn new_optimizer_has_the_default_table() {
    let optimizer = RewardOptimizer::new();
    assert_eq!(
        rewards_of(&optimizer),
        vec![
            ("click".to_string(), 5),
            ("scroll".to_string(), 2),
            ("share".to_string(), 25),
            ("form_submit".to_string(), 50),
            ("referral".to_string(), 100),
            ("daily_login".to_string(), 20),
        ]
    );
    assert_eq!(optimizer.difficulty_multiplier, 1_000_000);
    assert_eq!(optimizer.economy_balance, 1_000_000);
    assert_eq!(optimizer.inflation_rate, 20_000);
}

#[test]
fn economy_health_scales_with_users() {
    let optimizer = RewardOptimizer::new();
    assert_eq!(optimizer.analyze_economy_health(0, &stats(0, 50_000)), 100_000);
    assert_eq!(optimizer.analyze_economy_health(500, &stats(0, 50_000)), 487_500);
    assert_eq!(optimizer.analyze_economy_health(1000, &stats(0, 50_000)), 975_000);
    assert_eq!(optimizer.analyze_economy_health(5000, &stats(0, 50_000)), 975_000);
    assert_eq!(optimizer.analyze_economy_health(usize::MAX, &stats(0, 0)), 1_000_000);
}

#[test]
fn economy_health_falls_with_fraud() {
    let optimizer = RewardOptimizer::new();
    assert_eq!(optimizer.analyze_economy_health(1000, &stats(0, 0)), 1_000_000);
    assert_eq!(optimizer.analyze_economy_health(1000, &stats(0, 1_000_000)), 500_000);
    assert_eq!(optimizer.analyze_economy_health(1000, &stats(0, 1_800_000)), 100_000);
    assert_eq!(optimizer.analyze_economy_health(1000, &stats(0, 1_799_999)), 100_000);
    assert_eq!(optimizer.analyze_economy_health(1000, &stats(0, 1_700_000)), 150_000);
    assert_eq!(optimizer.analyze_economy_health(1000, &stats(0, 2_000_000)), 100_000);
    assert_eq!(optimizer.analyze_economy_health(1000, &stats(0, u64::MAX)), 100_000);
}

#[test]
fn economy_health_falls_with_inflation_above_a_million_actions() {
    let optimizer = RewardOptimizer::new();
    assert_eq!(optimizer.analyze_economy_health(1000, &stats(1_000_000, 50_000)), 975_000);
    // 0.975 / 1.2
    assert_eq!(optimizer.analyze_economy_health(1000, &stats(2_000_000, 50_000)), 812_500);
    // 0.975 / 1.1000001, rounded down
    assert_eq!(optimizer.analyze_economy_health(1000, &stats(1_000_001, 50_000)), 886_363);
    assert_eq!(optimizer.analyze_economy_health(1000, &stats(u64::MAX, 50_000)), 100_000);
}

#[test]
fn difficulty_follows_the_action_count() {
    let optimizer = RewardOptimizer::new();
    assert_eq!(optimizer.calculate_difficulty_adjustment(&stats(0, 0)), 900_000);
    assert_eq!(optimizer.calculate_difficulty_adjustment(&stats(50_000, 0)), 950_000);
    assert_eq!(optimizer.calculate_difficulty_adjustment(&stats(100_000, 0)), 1_000_000);
    assert_eq!(optimizer.calculate_difficulty_adjustment(&stats(100_001, 0)), 1_000_001);
    assert_eq!(optimizer.calculate_difficulty_adjustment(&stats(200_000, 0)), 1_100_000);
    assert_eq!(optimizer.calculate_difficulty_adjustment(&stats(1_100_000, 0)), 2_000_000);
    assert_eq!(optimizer.calculate_difficulty_adjustment(&stats(5_000_000, 0)), 2_000_000);
    assert_eq!(optimizer.calculate_difficulty_adjustment(&stats(u64::MAX, 0)), 2_000_000);
}

#[test]
fn frequency_multiplier_steps_down_with_the_share() {
    assert_eq!(frequency_multiplier_of(6, 10), 8);
    assert_eq!(frequency_multiplier_of(5, 10), 10);
    assert_eq!(frequency_multiplier_of(3, 10), 10);
    assert_eq!(frequency_multiplier_of(2, 10), 12);
    assert_eq!(frequency_multiplier_of(1, 10), 12);
    assert_eq!(frequency_multiplier_of(6, 100), 12);
    assert_eq!(frequency_multiplier_of(5, 100), 15);
    assert_eq!(frequency_multiplier_of(0, 100), 15);
    assert_eq!(frequency_multiplier_of(21, 100), 10);
    assert_eq!(frequency_multiplier_of(20, 100), 12);
    assert_eq!(frequency_multiplier_of(51, 100), 8);
    assert_eq!(frequency_multiplier_of(50, 100), 10);
    assert_eq!(frequency_multiplier_of(u128::MAX, 1), 8);
    assert_eq!(frequency_multiplier_of(1, 1), 8);
}

#[test]
fn without_actions_every_type_is_rare() {
    assert_eq!(frequency_multiplier_of(0, 0), 15);
    assert_eq!(frequency_multiplier_of(7, 0), 15);
    let optimizer = RewardOptimizer::new();
    let rewards = optimizer.optimize_action_rewards(&[], &stats(0, 50_000));
    let amounts: Vec<u64> = rewards.iter().map(|e| e.reward).collect();
    assert_eq!(amounts, vec![7, 3, 37, 75, 150, 30]);
    let users = [user("a", &["click", "click", "share"])];
    let rewards = optimizer.optimize_action_rewards(&users, &stats(0, 50_000));
    let amounts: Vec<u64> = rewards.iter().map(|e| e.reward).collect();
    assert_eq!(amounts, vec![7, 3, 37, 75, 150, 30]);
}

#[test]
fn scaled_reward_is_rounded_down_and_at_least_one() {
    assert_eq!(scale_reward(5, 15, 1_000_000, 1_000_000), 7);
    assert_eq!(scale_reward(5, 15, 487_500, 900_000), 3);
    assert_eq!(scale_reward(100, 8, 2_000_000, 2_000_000), 320);
    assert_eq!(scale_reward(2, 8, 100_000, 500_000), 1);
    assert_eq!(scale_reward(0, 15, 1_000_000, 1_000_000), 1);
    assert_eq!(scale_reward(5, 15, 0, 1_000_000), 1);
    assert_eq!(scale_reward(5, 15, 1_000_000, 0), 1);
    assert_eq!(scale_reward(5, 0, 1_000_000, 1_000_000), 1);
}

#[test]
fn scaled_reward_is_limited_to_the_largest_amount() {
    assert_eq!(scale_reward(u64::MAX, 15, u64::MAX, u64::MAX), u64::MAX);
    assert_eq!(scale_reward(u64::MAX, 15, u64::MAX, 1), u64::MAX);
    assert_eq!(scale_reward(u64::MAX, 10, 1_000_000, 1_000_000), u64::MAX);
    assert_eq!(scale_reward(u64::MAX, 8, 1_000_000, 1_000_000), 14_757_395_258_967_641_292);
    assert_eq!(scale_reward(1 << 40, 15, 1 << 44, 1 << 44), u64::MAX);
}

#[test]
fn actions_are_counted_over_all_users() {
    let users = [
        user("a", &["click", "click", "share"]),
        user("b", &[]),
        user("c", &["click", "scroll"]),
    ];
    assert_eq!(count_actions_of_type(&users, "click"), 3);
    assert_eq!(count_actions_of_type(&users, "share"), 1);
    assert_eq!(count_actions_of_type(&users, "referral"), 0);
    assert_eq!(count_actions_of_type(&[], "click"), 0);
}

#[test]
fn rewards_follow_the_action_mix() {
    let users = [
        user("a", &["click", "click", "click", "click", "click", "click"]),
        user("b", &["scroll", "scroll", "scroll", "share"]),
    ];
    let optimizer = RewardOptimizer::new();
    let rewards = optimizer.optimize_action_rewards(&users, &stats(10, 50_000));
    let amounts: Vec<(String, u64)> =
        rewards.iter().map(|e| (e.action_type.clone(), e.reward)).collect();
    assert_eq!(
        amounts,
        vec![
            ("click".to_string(), 4),
            ("scroll".to_string(), 2),
            ("share".to_string(), 30),
            ("form_submit".to_string(), 75),
            ("referral".to_string(), 150),
            ("daily_login".to_string(), 30),
        ]
    );
}

#[test]
fn recommendations_follow_the_thresholds() {
    let optimizer = RewardOptimizer::new();
    let balanced = "Economy is well-balanced - maintain current reward structure";
    let reduce = "Consider reducing base reward rates to control inflation";
    let increase = "Economy is stable - consider increasing rewards to boost participation";
    let raise = "High activity detected - increase mining difficulty to balance rewards";
    let lower = "Low activity detected - consider reducing difficulty or increasing rewards";
    assert_eq!(optimizer.generate_recommendations(1_000_000, 1_000_000), vec![balanced]);
    assert_eq!(optimizer.generate_recommendations(800_000, 900_000), vec![balanced]);
    assert_eq!(optimizer.generate_recommendations(1_200_000, 1_100_000), vec![balanced]);
    assert_eq!(optimizer.generate_recommendations(799_999, 1_000_000), vec![reduce]);
    assert_eq!(optimizer.generate_recommendations(1_200_001, 1_000_000), vec![increase]);
    assert_eq!(optimizer.generate_recommendations(1_000_000, 1_100_001), vec![raise]);
    assert_eq!(optimizer.generate_recommendations(1_000_000, 899_999), vec![lower]);
    assert_eq!(optimizer.generate_recommendations(100_000, 2_000_000), vec![reduce, raise]);
    assert_eq!(optimizer.generate_recommendations(2_000_000, 500_000), vec![increase, lower]);
}

#[test]
fn a_pass_stores_its_scalars_and_computes_the_rewards_with_them() {
    let mut optimizer = RewardOptimizer::new();
    let first = optimizer.calculate_optimal_rewards(&[], &stats(0, 50_000));
    assert_eq!(first.economy_health, 100_000);
    assert_eq!(first.difficulty_adjustment, 900_000);
    let amounts: Vec<u64> = first.optimized_rewards.iter().map(|e| e.reward).collect();
    // base * 1.5 * 0.1 * 0.9, with the health and difficulty of this pass
    assert_eq!(amounts, vec![1, 1, 3, 6, 13, 2]);
    assert_eq!(
        first.recommended_changes,
        vec!["Consider reducing base reward rates to control inflation"]
    );
    assert_eq!(optimizer.economy_balance, 100_000);
    assert_eq!(optimizer.difficulty_multiplier, 900_000);
    assert_eq!(optimizer.inflation_rate, 20_000);
    assert_eq!(optimizer.base_rewards.len(), 6);
    let second = optimizer.calculate_optimal_rewards(&[], &stats(0, 50_000));
    let amounts: Vec<u64> = second.optimized_rewards.iter().map(|e| e.reward).collect();
    assert_eq!(amounts, vec![1, 1, 3, 6, 13, 2]);
    let users: Vec<UserBehaviorPattern> =
        (0..1000).map(|i| user(&format!("u{}", i), &[])).collect();
    let third = optimizer.calculate_optimal_rewards(&users, &stats(100_000, 0));
    let amounts: Vec<u64> = third.optimized_rewards.iter().map(|e| e.reward).collect();
    // health 1.0 and difficulty 1.0: base * 1.5
    assert_eq!(amounts, vec![7, 3, 37, 75, 150, 30]);
}

#[test]
fn a_pass_over_many_users_and_actions() {
    let users: Vec<UserBehaviorPattern> =
        (0..1200).map(|i| user(&format!("u{}", i), &["share"])).collect();
    let mut optimizer = RewardOptimizer::new();
    let result = optimizer.calculate_optimal_rewards(&users, &stats(150_000, 0));
    assert_eq!(result.economy_health, 1_000_000);
    assert_eq!(result.difficulty_adjustment, 1_050_000);
    assert_eq!(
        result.recommended_changes,
        vec!["Economy is well-balanced - maintain current reward structure"]
    );
}

#[test]
fn base_rewards_can_be_replaced_and_added() {
    let mut optimizer = RewardOptimizer::new();
    optimizer.update_base_reward("scroll", 9);
    optimizer.update_base_reward("survey", 40);
    let rewards = rewards_of(&optimizer);
    assert_eq!(rewards.len(), 7);
    assert_eq!(rewards[1], ("scroll".to_string(), 9));
    assert_eq!(rewards[6], ("survey".to_string(), 40));
    optimizer.update_base_reward("survey", 41);
    assert_eq!(rewards_of(&optimizer).len(), 7);
    assert_eq!(rewards_of(&optimizer)[6], ("survey".to_string(), 41));
    assert_eq!(optimizer.economy_balance, 1_000_000);
}
