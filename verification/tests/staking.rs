use bitnun::contracts::staking::rewards_for;
use bitnun::contracts::StakingContract;

const WEEK: u64 = 604_800_000;
const YEAR: u64 = 31_557_600_000;

#[test]
fn new_pool_has_the_defaults() {
    let pool = StakingContract::new();
    assert!(pool.stakes.is_empty());
    assert_eq!(pool.total_staked, 0);
    assert_eq!(pool.reward_rate, 125_000);
    assert_eq!(pool.min_stake, 10_000);
    assert_eq!(pool.lock_period, WEEK);
    let stats = pool.get_pool_stats();
    assert_eq!(stats.total_staked, 0);
    assert_eq!(stats.reward_rate, 125_000);
    assert_eq!(stats.min_stake, 10_000);
    assert_eq!(stats.total_stakers, 0);
}

#[test]
fn stake_below_the_minimum_is_rejected() {
    let mut pool = StakingContract::new();
    assert!(!pool.stake("alice", 9_999, 1000));
    assert!(pool.stakes.is_empty());
    assert_eq!(pool.total_staked, 0);
    assert!(pool.find_stake("alice").is_none());
}

#[test]
fn a_new_stake_starts_its_clock() {
    let mut pool = StakingContract::new();
    assert!(pool.stake("alice", 10_000, 1000));
    assert_eq!(pool.find_stake("alice"), Some(0));
    let stake = pool.stakes[0].info;
    assert_eq!(pool.stakes[0].user, "alice");
    assert_eq!(stake.amount, 10_000);
    assert_eq!(stake.staked_at, 1000);
    assert_eq!(stake.last_reward_claim, 1000);
    assert_eq!(stake.total_rewards_claimed, 0);
    assert_eq!(pool.total_staked, 10_000);
}

#[test]
fn adding_to_a_stake_keeps_its_clock() {
    let mut pool = StakingContract::new();
    assert!(pool.stake("alice", 10_000, 1000));
    assert!(pool.stake("bob", 20_000, 1500));
    assert!(pool.stake("alice", 15_000, 2000));
    assert_eq!(pool.stakes.len(), 2);
    assert_eq!(pool.stakes[0].info.amount, 25_000);
    assert_eq!(pool.stakes[0].info.staked_at, 1000);
    assert_eq!(pool.total_staked, 45_000);
    assert_eq!(pool.get_pool_stats().total_stakers, 2);
}

#[test]
fn unstake_waits_for_the_lock() {
    let mut pool = StakingContract::new();
    pool.stake("alice", 10_000, 1000);
    assert!(!pool.unstake("alice", 1, 1000 + WEEK - 1));
    assert!(!pool.unstake("alice", 1, 0));
    assert!(pool.unstake("alice", 1, 1000 + WEEK));
    assert_eq!(pool.stakes[0].info.amount, 9_999);
    assert_eq!(pool.total_staked, 9_999);
}

#[test]
fn unstake_needs_a_stake_that_covers_the_amount() {
    let mut pool = StakingContract::new();
    pool.stake("alice", 10_000, 0);
    assert!(!pool.unstake("bob", 1, WEEK));
    assert!(!pool.unstake("alice", 10_001, WEEK));
    assert_eq!(pool.total_staked, 10_000);
    assert_eq!(pool.stakes.len(), 1);
}

#[test]
fn a_stake_that_is_used_up_is_removed() {
    let mut pool = StakingContract::new();
    pool.stake("alice", 10_000, 0);
    pool.stake("bob", 20_000, 0);
    assert!(pool.unstake("alice", 10_000, WEEK));
    assert_eq!(pool.stakes.len(), 1);
    assert_eq!(pool.stakes[0].user, "bob");
    assert_eq!(pool.total_staked, 20_000);
    assert!(pool.get_stake_info("alice", WEEK).is_none());
    assert!(pool.stake("alice", 10_000, WEEK + 5));
    assert_eq!(pool.stakes[1].info.staked_at, WEEK + 5);
}

#[test]
fn rewards_are_the_yearly_rate_over_the_elapsed_time() {
    assert_eq!(rewards_for(10_000, 125_000, YEAR), 1_250);
    assert_eq!(rewards_for(10_000, 125_000, YEAR / 2), 625);
    assert_eq!(rewards_for(10_000, 125_000, 2 * YEAR), 2_500);
    assert_eq!(rewards_for(10_000, 125_000, WEEK), 23);
    assert_eq!(rewards_for(10_000, 125_000, 1), 0);
    assert_eq!(rewards_for(7, 1_000_000, YEAR - 1), 6);
    assert_eq!(rewards_for(0, 125_000, YEAR), 0);
    assert_eq!(rewards_for(10_000, 0, YEAR), 0);
    assert_eq!(rewards_for(10_000, 125_000, 0), 0);
}

#[test]
fn rewards_are_limited_to_the_largest_amount() {
    assert_eq!(rewards_for(u64::MAX, u64::MAX, u64::MAX), u64::MAX);
    assert_eq!(rewards_for(u64::MAX, 1_000_000, YEAR), u64::MAX);
    assert_eq!(rewards_for(u64::MAX, 1_000_000, YEAR - 1), u64::MAX - 584_542_047);
    assert_eq!(rewards_for(u64::MAX, 1_000_000, YEAR + 1), u64::MAX);
}

#[test]
fn pending_rewards_count_from_the_last_claim() {
    let mut pool = StakingContract::new();
    pool.stake("alice", 10_000, 1000);
    assert_eq!(pool.calculate_rewards("alice", 1000), 0);
    assert_eq!(pool.calculate_rewards("alice", 0), 0);
    assert_eq!(pool.calculate_rewards("alice", 1000 + YEAR), 1_250);
    assert_eq!(pool.calculate_rewards("bob", 1000 + YEAR), 0);
}

#[test]
fn claiming_resets_the_clock_and_counts_the_rewards() {
    let mut pool = StakingContract::new();
    pool.stake("alice", 10_000, 1000);
    assert_eq!(pool.claim_rewards("alice", 1000 + YEAR), 1_250);
    let stake = pool.stakes[0].info;
    assert_eq!(stake.last_reward_claim, 1000 + YEAR);
    assert_eq!(stake.total_rewards_claimed, 1_250);
    assert_eq!(stake.amount, 10_000);
    assert_eq!(pool.claim_rewards("alice", 1000 + YEAR), 0);
    assert_eq!(pool.claim_rewards("alice", 1010 + YEAR), 0);
    assert_eq!(pool.stakes[0].info.last_reward_claim, 1000 + YEAR);
    assert_eq!(pool.claim_rewards("alice", 1000 + 2 * YEAR), 1_250);
    assert_eq!(pool.stakes[0].info.total_rewards_claimed, 2_500);
    assert_eq!(pool.claim_rewards("bob", 1000 + 2 * YEAR), 0);
}

#[test]
fn stake_info_shows_pending_rewards_and_the_lock() {
    let mut pool = StakingContract::new();
    pool.stake("alice", 10_000, 1000);
    let early = pool.get_stake_info("alice", 1000 + WEEK - 1).unwrap();
    assert_eq!(early.amount, 10_000);
    assert_eq!(early.staked_at, 1000);
    assert_eq!(early.pending_rewards, 23);
    assert_eq!(early.total_rewards_claimed, 0);
    assert!(!early.can_unstake);
    let later = pool.get_stake_info("alice", 1000 + WEEK).unwrap();
    assert!(later.can_unstake);
    assert!(!pool.get_stake_info("alice", 0).unwrap().can_unstake);
    assert!(pool.get_stake_info("bob", 1000).is_none());
}
