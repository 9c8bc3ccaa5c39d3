//! The staking pool: locked stakes that earn a yearly yield.

use crate::keyed::{find, keys_of, position_of, Keyed};
use vstd::prelude::*;
use vstd::string::*;

verus! {

/// The yearly yield of a new pool, in millionths: 12.5 percent.
pub const DEFAULT_REWARD_RATE: u64 = 125_000;

/// The smallest amount that a new pool accepts as a stake.
pub const DEFAULT_POOL_MIN_STAKE: u64 = 10000;

/// The time, in milliseconds, for which a stake of a new pool is locked:
/// seven days.
pub const DEFAULT_LOCK_PERIOD_MS: u64 = 604_800_000;

/// The milliseconds of a year of 365.25 days.
pub const MS_PER_YEAR: u64 = 31_557_600_000;

/// A stake: the amount, when it was made, when its rewards were last
/// claimed, and the rewards claimed so far. Times are in milliseconds.
#[derive(Clone, Copy, Debug)]
pub struct StakeInfo {
    pub amount: u64,
    pub staked_at: u64,
    pub last_reward_claim: u64,
    pub total_rewards_claimed: u64,
}

/// The stake of one user.
pub struct UserStake {
    pub user: String,
    pub info: StakeInfo,
}

/// What a stake holds, as plain mathematical values.
pub struct StakeView {
    pub user: Seq<char>,
    pub amount: nat,
    pub staked_at: nat,
    pub last_reward_claim: nat,
    pub total_rewards_claimed: nat,
}

impl View for UserStake {
    type V = StakeView;

    open spec fn view(&self) -> StakeView {
        StakeView {
            user: self.user@,
            amount: self.info.amount as nat,
            staked_at: self.info.staked_at as nat,
            last_reward_claim: self.info.last_reward_claim as nat,
            total_rewards_claimed: self.info.total_rewards_claimed as nat,
        }
    }
}

impl Keyed for UserStake {
    open spec fn key(&self) -> Seq<char> {
        self.user@
    }

    fn key_text(&self) -> (text: &String) {
        &self.user
    }
}

/// The views of a sequence of stakes, in order.
pub open spec fn stake_views(stakes: Seq<UserStake>) -> Seq<StakeView> {
    stakes.map_values(|s: UserStake| s@)
}

/// The users of a sequence of stakes, in order.
pub open spec fn stake_users(stakes: Seq<StakeView>) -> Seq<Seq<char>> {
    stakes.map_values(|s: StakeView| s.user)
}

/// The pool. The reward rate is in millionths a year, the lock period in
/// milliseconds.
pub struct StakingContract {
    pub stakes: Vec<UserStake>,
    pub total_staked: u64,
    pub reward_rate: u64,
    pub min_stake: u64,
    pub lock_period: u64,
}

/// What the pool holds, as plain mathematical values.
pub struct PoolView {
    pub stakes: Seq<StakeView>,
    pub total_staked: nat,
    pub reward_rate: nat,
    pub min_stake: nat,
    pub lock_period: nat,
}

impl View for StakingContract {
    type V = PoolView;

    open spec fn view(&self) -> PoolView {
        PoolView {
            stakes: stake_views(self.stakes@),
            total_staked: self.total_staked as nat,
            reward_rate: self.reward_rate as nat,
            min_stake: self.min_stake as nat,
            lock_period: self.lock_period as nat,
        }
    }
}

/// What a user sees of a stake.
pub struct UserStakeInfo {
    pub amount: u64,
    pub staked_at: u64,
    pub pending_rewards: u64,
    pub total_rewards_claimed: u64,
    pub can_unstake: bool,
}

/// The figures that describe the pool.
pub struct PoolStats {
    pub total_staked: u64,
    pub reward_rate: u64,
    pub min_stake: u64,
    pub total_stakers: usize,
}

/// The stake of `user`, if there is one.
pub open spec fn stake_of(stakes: Seq<StakeView>, user: Seq<char>) -> Option<StakeView> {
    match position_of(stake_users(stakes), user) {
        Some(i) => Some(stakes[i]),
        None => None,
    }
}

/// The rewards that a stake has earned at `now`: the amount times the
/// yearly rate times the years since the last claim, rounded down, at most
/// `u64::MAX`, and nothing before the last claim.
pub open spec fn earned(stake: StakeView, reward_rate: nat, now: nat) -> nat {
    if now <= stake.last_reward_claim {
        0
    } else {
        let raw = (stake.amount * reward_rate * (now - stake.last_reward_claim)) / (1_000_000
            * MS_PER_YEAR as int);
        if raw > u64::MAX {
            u64::MAX as nat
        } else {
            raw as nat
        }
    }
}

/// The rewards that `user` can claim at `now`: nothing without a stake.
pub open spec fn pending_rewards(pool: PoolView, user: Seq<char>, now: nat) -> nat {
    match stake_of(pool.stakes, user) {
        Some(stake) => earned(stake, pool.reward_rate, now),
        None => 0,
    }
}

/// The lock of a stake has run out at `now`.
pub open spec fn unlocked(stake: StakeView, lock_period: nat, now: nat) -> bool {
    now - stake.staked_at >= lock_period
}

/// Whether `user` may take `amount` out of the pool at `now`.
pub open spec fn may_unstake(pool: PoolView, user: Seq<char>, amount: nat, now: nat) -> bool {
    match stake_of(pool.stakes, user) {
        Some(stake) => unlocked(stake, pool.lock_period, now) && stake.amount >= amount,
        None => false,
    }
}

/// The stakes after `user` added `amount` at `now`: an existing stake
/// grows, a new one starts its lock and its rewards at `now`.
pub open spec fn after_stake(stakes: Seq<StakeView>, user: Seq<char>, amount: nat, now: nat) -> Seq<
    StakeView,
> {
    match position_of(stake_users(stakes), user) {
        Some(i) => stakes.update(i, StakeView { amount: stakes[i].amount + amount, ..stakes[i] }),
        None => stakes.push(
            StakeView {
                user,
                amount,
                staked_at: now,
                last_reward_claim: now,
                total_rewards_claimed: 0,
            },
        ),
    }
}

/// The stakes after `user` took out `amount`: a stake that is used up is
/// removed.
pub open spec fn after_unstake(stakes: Seq<StakeView>, user: Seq<char>, amount: nat) -> Seq<
    StakeView,
> {
    match position_of(stake_users(stakes), user) {
        Some(i) => if stakes[i].amount == amount {
            stakes.remove(i)
        } else {
            stakes.update(
                i,
                StakeView { amount: (stakes[i].amount - amount) as nat, ..stakes[i] },
            )
        },
        None => stakes,
    }
}

/// The stakes after `user` claimed `rewards` at `now`.
pub open spec fn after_claim(stakes: Seq<StakeView>, user: Seq<char>, rewards: nat, now: nat) -> Seq<
    StakeView,
> {
    match position_of(stake_users(stakes), user) {
        Some(i) => stakes.update(
            i,
            StakeView {
                last_reward_claim: now,
                total_rewards_claimed: stakes[i].total_rewards_claimed + rewards,
                ..stakes[i]
            },
        ),
        None => stakes,
    }
}

/// The rewards of a stake of `amount` at the yearly rate `reward_rate`, in
/// millionths, over `elapsed` milliseconds.
pub fn rewards_for(amount: u64, reward_rate: u64, elapsed: u64) -> (rewards: u64)
    ensures
        rewards == ({
            let raw = (amount * reward_rate * elapsed) / (1_000_000 * MS_PER_YEAR as int);
            if raw > u64::MAX {
                u64::MAX as int
            } else {
                raw
            }
        }),
{
    let ghost product: int = amount * reward_rate * elapsed;
    if amount == 0 || reward_rate == 0 || elapsed == 0 {
        assert(product == 0) by (nonlinear_arith)
            requires
                product == amount * reward_rate * elapsed,
                amount == 0 || reward_rate == 0 || elapsed == 0,
        ;
        return 0;
    }
    assert(amount * reward_rate <= 0xffff_ffff_ffff_ffff * 0xffff_ffff_ffff_ffff)
        by (nonlinear_arith)
        requires
            amount <= 0xffff_ffff_ffff_ffff,
            reward_rate <= 0xffff_ffff_ffff_ffff,
    ;
    let weighted: u128 = (amount as u128) * (reward_rate as u128);
    let scaled: u128 = match weighted.checked_mul(elapsed as u128) {
        Some(value) => value,
        None => {
            assert(product / (1_000_000 * MS_PER_YEAR as int) > u64::MAX) by (nonlinear_arith)
                requires
                    product == weighted * elapsed,
                    weighted * elapsed > u128::MAX,
                    MS_PER_YEAR == 31_557_600_000,
            ;
            return u64::MAX;
        },
    };
    let raw: u128 = scaled / (1_000_000 * MS_PER_YEAR as u128);
    if raw > u64::MAX as u128 {
        u64::MAX
    } else {
        raw as u64
    }
}

impl StakingContract {
    /// An empty pool with the default rate, minimum and lock period.
    pub fn new() -> (pool: StakingContract)
        ensures
            pool@ == (PoolView {
                stakes: Seq::empty(),
                total_staked: 0,
                reward_rate: DEFAULT_REWARD_RATE as nat,
                min_stake: DEFAULT_POOL_MIN_STAKE as nat,
                lock_period: DEFAULT_LOCK_PERIOD_MS as nat,
            }),
    {
        let pool = StakingContract {
            stakes: Vec::new(),
            total_staked: 0,
            reward_rate: DEFAULT_REWARD_RATE,
            min_stake: DEFAULT_POOL_MIN_STAKE,
            lock_period: DEFAULT_LOCK_PERIOD_MS,
        };
        assert(pool@.stakes =~= Seq::empty());
        pool
    }

    /// The position of the stake of `user`.
    pub fn find_stake(&self, user: &str) -> (found: Option<usize>)
        ensures
            found is None <==> position_of(stake_users(self@.stakes), user@) is None,
            found matches Some(i) ==> i < self@.stakes.len() && position_of(
                stake_users(self@.stakes),
                user@,
            ) == Some(i as int),
    {
        assert(keys_of(self.stakes@) =~= stake_users(self@.stakes));
        find(self.stakes.as_slice(), user)
    }

    /// Adds `amount` to the stake of `user` at the time `now`, if it is at
    /// least the minimum. A rejected stake changes nothing.
    pub fn stake(&mut self, user: &str, amount: u64, now: u64) -> (done: bool)
        requires
            amount >= old(self).min_stake ==> old(self).total_staked + amount <= u64::MAX && (
            stake_of(old(self)@.stakes, user@) matches Some(s) ==> s.amount + amount <= u64::MAX),
        ensures
            done == (amount >= old(self)@.min_stake),
            !done ==> final(self)@ == old(self)@,
            done ==> final(self)@ == (PoolView {
                stakes: after_stake(old(self)@.stakes, user@, amount as nat, now as nat),
                total_staked: old(self)@.total_staked + amount as nat,
                ..old(self)@
            }),
    {
        if amount < self.min_stake {
            return false;
        }
        match self.find_stake(user) {
            Some(i) => {
                self.stakes[i].info.amount = self.stakes[i].info.amount + amount;
                assert(self@.stakes =~= after_stake(
                    old(self)@.stakes,
                    user@,
                    amount as nat,
                    now as nat,
                ));
            },
            None => {
                let entry = UserStake {
                    user: String::from_str(user),
                    info: StakeInfo {
                        amount,
                        staked_at: now,
                        last_reward_claim: now,
                        total_rewards_claimed: 0,
                    },
                };
                self.stakes.push(entry);
                assert(self@.stakes =~= old(self)@.stakes.push(entry@));
            },
        }
        self.total_staked = self.total_staked + amount;
        true
    }

    /// Takes `amount` out of the stake of `user` at the time `now`, if the
    /// lock has run out and the stake covers the amount. A rejected request
    /// changes nothing.
    pub fn unstake(&mut self, user: &str, amount: u64, now: u64) -> (done: bool)
        requires
            may_unstake(old(self)@, user@, amount as nat, now as nat) ==> old(self).total_staked
                >= amount,
        ensures
            done == may_unstake(old(self)@, user@, amount as nat, now as nat),
            !done ==> final(self)@ == old(self)@,
            done ==> final(self)@ == (PoolView {
                stakes: after_unstake(old(self)@.stakes, user@, amount as nat),
                total_staked: (old(self)@.total_staked - amount) as nat,
                ..old(self)@
            }),
    {
        match self.find_stake(user) {
            Some(i) => {
                let staked_at: u64 = self.stakes[i].info.staked_at;
                if now < staked_at || now - staked_at < self.lock_period {
                    return false;
                }
                if self.stakes[i].info.amount < amount {
                    return false;
                }
                if self.stakes[i].info.amount == amount {
                    self.stakes.remove(i);
                    assert(self@.stakes =~= old(self)@.stakes.remove(i as int));
                } else {
                    self.stakes[i].info.amount = self.stakes[i].info.amount - amount;
                    assert(self@.stakes =~= after_unstake(
                        old(self)@.stakes,
                        user@,
                        amount as nat,
                    ));
                }
                self.total_staked = self.total_staked - amount;
                true
            },
            None => false,
        }
    }

    /// The rewards that `user` can claim at the time `now`.
    pub fn calculate_rewards(&self, user: &str, now: u64) -> (rewards: u64)
        ensures
            rewards == pending_rewards(self@, user@, now as nat),
    {
        match self.find_stake(user) {
            Some(i) => {
                let last_claim: u64 = self.stakes[i].info.last_reward_claim;
                if now <= last_claim {
                    0
                } else {
                    rewards_for(self.stakes[i].info.amount, self.reward_rate, now - last_claim)
                }
            },
            None => 0,
        }
    }

    /// Claims the rewards of `user` at the time `now` and returns them.
    /// Without rewards nothing changes.
    pub fn claim_rewards(&mut self, user: &str, now: u64) -> (rewards: u64)
        requires
            stake_of(old(self)@.stakes, user@) matches Some(s) ==> s.total_rewards_claimed
                + pending_rewards(old(self)@, user@, now as nat) <= u64::MAX,
        ensures
            rewards == pending_rewards(old(self)@, user@, now as nat),
            rewards == 0 ==> final(self)@ == old(self)@,
            rewards > 0 ==> final(self)@ == (PoolView {
                stakes: after_claim(old(self)@.stakes, user@, rewards as nat, now as nat),
                ..old(self)@
            }),
    {
        let rewards: u64 = self.calculate_rewards(user, now);
        if rewards > 0 {
            match self.find_stake(user) {
                Some(i) => {
                    self.stakes[i].info.last_reward_claim = now;
                    self.stakes[i].info.total_rewards_claimed = self.stakes[i].info.total_rewards_claimed
                        + rewards;
                    assert(self@.stakes =~= after_claim(
                        old(self)@.stakes,
                        user@,
                        rewards as nat,
                        now as nat,
                    ));
                },
                None => {},
            }
        }
        rewards
    }

    /// What `user` sees of the stake at the time `now`, if there is one.
    pub fn get_stake_info(&self, user: &str, now: u64) -> (info: Option<UserStakeInfo>)
        ensures
            info is None <==> stake_of(self@.stakes, user@) is None,
            info matches Some(seen) ==> {
                let stake = stake_of(self@.stakes, user@)->0;
                &&& seen.amount == stake.amount
                &&& seen.staked_at == stake.staked_at
                &&& seen.pending_rewards == pending_rewards(self@, user@, now as nat)
                &&& seen.total_rewards_claimed == stake.total_rewards_claimed
                &&& seen.can_unstake == unlocked(stake, self@.lock_period, now as nat)
            },
    {
        match self.find_stake(user) {
            Some(i) => {
                let stake: StakeInfo = self.stakes[i].info;
                Some(
                    UserStakeInfo {
                        amount: stake.amount,
                        staked_at: stake.staked_at,
                        pending_rewards: self.calculate_rewards(user, now),
                        total_rewards_claimed: stake.total_rewards_claimed,
                        can_unstake: now >= stake.staked_at && now - stake.staked_at
                            >= self.lock_period,
                    },
                )
            },
            None => None,
        }
    }

    /// The figures that describe the pool.
    pub fn get_pool_stats(&self) -> (stats: PoolStats)
        ensures
            stats.total_staked == self@.total_staked,
            stats.reward_rate == self@.reward_rate,
            stats.min_stake == self@.min_stake,
            stats.total_stakers == self@.stakes.len(),
    {
        PoolStats {
            total_staked: self.total_staked,
            reward_rate: self.reward_rate,
            min_stake: self.min_stake,
            total_stakers: self.stakes.len(),
        }
    }
}

} // verus!
