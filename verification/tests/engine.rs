use bitnun::ai::{AIConsensus, UserBehaviorPattern};

fn engine_with(pattern: UserBehaviorPattern) -> AIConsensus {
    let mut engine = AIConsensus::new();
    engine.action_patterns.push(pattern);
    engine
}

#[test]
fn new_engine_starts_on_the_baselines() {
    let engine = AIConsensus::new();
    assert!(engine.action_patterns.is_empty());
    assert_eq!(engine.global_stats.total_users, 0);
    assert_eq!(engine.global_stats.total_actions, 0);
    assert_eq!(engine.global_stats.fraud_rate, 50_000);
    assert_eq!(engine.global_stats.average_authenticity, 850_000);
    assert!(engine.global_stats.peak_activity_times.is_empty());
    assert_eq!(engine.fraud_detector.min_action_interval, 50);
    assert_eq!(engine.reward_optimizer.base_rewards.len(), 6);
}

#[test]
fn first_action_of_a_user_creates_the_pattern() {
    let mut engine = AIConsensus::new();
    let score = engine.analyze_action("u1", "click", 1000, "devA");
    assert_eq!(score, 900_000);
    assert_eq!(engine.action_patterns.len(), 1);
    let pattern = &engine.action_patterns[0];
    assert_eq!(pattern.user_id, "u1");
    assert_eq!(pattern.action_history.len(), 1);
    assert_eq!(pattern.action_history[0].authenticity_score, 900_000);
    assert!(pattern.timing_patterns.is_empty());
    assert_eq!(pattern.device_fingerprints, vec!["devA".to_string()]);
    assert_eq!(pattern.reputation_score, 995_000);
    assert_eq!(pattern.total_actions, 1);
    assert_eq!(pattern.suspicious_events, 0);
    assert_eq!(engine.global_stats.total_actions, 1);
    assert_eq!(engine.global_stats.average_authenticity, 850_050);
}

#[test]
fn second_action_is_scored_against_the_recorded_pattern() {
    let mut engine = AIConsensus::new();
    engine.analyze_action("u1", "click", 1000, "devA");
    let score = engine.analyze_action("u1", "click", 1200, "devA");
    assert_eq!(score, 1_000_000);
    let pattern = &engine.action_patterns[0];
    assert_eq!(pattern.timing_patterns, vec![200]);
    assert_eq!(pattern.reputation_score, 995_250);
    assert_eq!(pattern.total_actions, 2);
    assert_eq!(engine.global_stats.total_actions, 2);
    assert_eq!(engine.global_stats.average_authenticity, (999 * 850_050 + 1_000_000) / 1000);
    let fast = engine.analyze_action("u1", "click", 1210, "devA");
    assert_eq!(fast, 1_000_000);
    let after_fast = engine.analyze_action("u1", "click", 1500, "devA");
    assert_eq!(after_fast, 200_000);
    assert_eq!(engine.action_patterns[0].suspicious_events, 1);
}

#[test]
fn users_are_kept_apart() {
    let mut engine = AIConsensus::new();
    engine.analyze_action("u1", "click", 1000, "devA");
    engine.analyze_action("u2", "share", 1001, "devB");
    engine.analyze_action("u1", "click", 1200, "devA");
    assert_eq!(engine.action_patterns.len(), 2);
    assert_eq!(engine.action_patterns[0].user_id, "u1");
    assert_eq!(engine.action_patterns[0].total_actions, 2);
    assert_eq!(engine.action_patterns[1].user_id, "u2");
    assert_eq!(engine.action_patterns[1].total_actions, 1);
    assert_eq!(engine.get_ai_stats().total_users_analyzed, 2);
    assert_eq!(engine.get_ai_stats().total_actions_processed, 3);
}

#[test]
fn bot_like_clicking_drives_the_score_down() {
    let mut engine = AIConsensus::new();
    let mut last = 0;
    for i in 0..12u64 {
        last = engine.analyze_action("bot", "click", 1000 + 100 * i, "devA");
        assert!(last <= 1_000_000);
    }
    // ten regular intervals 0.3, ten clicks in a row 0.4
    assert_eq!(last, 120_000);
    // with an eleventh interval the click check joins in: over half are at 100 ms, 0.3
    assert_eq!(engine.analyze_action("bot", "click", 2200, "devA"), 36_000);
    assert!(engine.action_patterns[0].suspicious_events > 0);
    assert!(engine.get_user_reputation("bot") < 1_000_000);
}

#[test]
fn reputation_of_an_unknown_user_is_one() {
    let mut engine = AIConsensus::new();
    assert_eq!(engine.get_user_reputation("nobody"), 1_000_000);
    engine.analyze_action("u1", "click", 1000, "devA");
    assert_eq!(engine.get_user_reputation("u1"), 995_000);
    assert_eq!(engine.get_user_reputation("nobody"), 1_000_000);
}

#[test]
fn suspicion_by_reputation_events_or_ratio() {
    assert!(!AIConsensus::new().is_user_suspicious("nobody"));
    let mut pattern = UserBehaviorPattern::new("u");
    pattern.total_actions = 100;
    assert!(!engine_with(pattern).is_user_suspicious("u"));
    let mut pattern = UserBehaviorPattern::new("u");
    pattern.total_actions = 100;
    pattern.reputation_score = 599_999;
    assert!(engine_with(pattern).is_user_suspicious("u"));
    let mut pattern = UserBehaviorPattern::new("u");
    pattern.total_actions = 100;
    pattern.reputation_score = 600_000;
    pattern.suspicious_events = 10;
    assert!(!engine_with(pattern).is_user_suspicious("u"));
    let mut pattern = UserBehaviorPattern::new("u");
    pattern.total_actions = 100;
    pattern.suspicious_events = 11;
    assert!(engine_with(pattern).is_user_suspicious("u"));
    let mut pattern = UserBehaviorPattern::new("u");
    pattern.total_actions = 10;
    pattern.suspicious_events = 3;
    assert!(!engine_with(pattern).is_user_suspicious("u"));
    let mut pattern = UserBehaviorPattern::new("u");
    pattern.total_actions = 10;
    pattern.suspicious_events = 4;
    assert!(engine_with(pattern).is_user_suspicious("u"));
    let mut pattern = UserBehaviorPattern::new("u");
    pattern.total_actions = 0;
    pattern.suspicious_events = 1;
    assert!(engine_with(pattern).is_user_suspicious("u"));
    assert!(!engine_with(UserBehaviorPattern::new("u")).is_user_suspicious("u"));
}

#[test]
fn stats_count_users_of_low_reputation() {
    let mut engine = AIConsensus::new();
    for (user, reputation) in [("a", 599_999u64), ("b", 600_000), ("c", 0), ("d", 1_000_000)] {
        let mut pattern = UserBehaviorPattern::new(user);
        pattern.reputation_score = reputation;
        engine.action_patterns.push(pattern);
    }
    engine.global_stats.total_actions = 42;
    let stats = engine.get_ai_stats();
    assert_eq!(stats.total_users_analyzed, 4);
    assert_eq!(stats.total_actions_processed, 42);
    assert_eq!(stats.current_fraud_rate, 50_000);
    assert_eq!(stats.average_authenticity, 850_000);
    assert_eq!(stats.suspicious_users, 2);
}

#[test]
fn reset_restores_reputation_and_forgets_events() {
    let mut pattern = UserBehaviorPattern::new("u");
    pattern.reputation_score = 100_000;
    pattern.suspicious_events = 20;
    pattern.total_actions = 30;
    let mut engine = engine_with(pattern);
    engine.action_patterns.push(UserBehaviorPattern::new("v"));
    engine.action_patterns[1].reputation_score = 5;
    engine.reset_user_reputation("nobody");
    assert_eq!(engine.action_patterns[0].reputation_score, 100_000);
    engine.reset_user_reputation("u");
    assert_eq!(engine.action_patterns[0].reputation_score, 1_000_000);
    assert_eq!(engine.action_patterns[0].suspicious_events, 0);
    assert_eq!(engine.action_patterns[0].total_actions, 30);
    assert_eq!(engine.action_patterns[1].reputation_score, 5);
}

#[test]
fn optimization_pass_uses_recorded_actions() {
    let mut engine = AIConsensus::new();
    for i in 0..10u64 {
        engine.analyze_action("u1", "click", 1000 + 317 * i * i, "devA");
    }
    let optimization = engine.optimize_rewards();
    // one user of a thousand: 1950000 * 1 / 2000
    assert_eq!(optimization.economy_health, 100_000);
    assert_eq!(optimization.difficulty_adjustment, 900_010);
    let rewards: Vec<(String, u64)> = optimization
        .optimized_rewards
        .iter()
        .map(|e| (e.action_type.clone(), e.reward))
        .collect();
    // every action was a click: 5 * 0.8 * 0.1 * 0.90001, at least one unit;
    // the others are rare: base * 1.5 * 0.1 * 0.90001
    assert_eq!(rewards[0], ("click".to_string(), 1));
    assert_eq!(rewards[1], ("scroll".to_string(), 1));
    assert_eq!(rewards[4], ("referral".to_string(), 13));
    assert_eq!(rewards[5], ("daily_login".to_string(), 2));
    assert_eq!(engine.reward_optimizer.economy_balance, 100_000);
    assert_eq!(engine.reward_optimizer.difficulty_multiplier, 900_010);
}
