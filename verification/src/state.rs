//! The records the engines own, and the pure computations defined on them.

use vstd::prelude::*;
use crate::address::Address;
use crate::constants::{
    APY_0_DAYS, APY_180_DAYS, APY_30_DAYS, APY_365_DAYS, APY_90_DAYS, BPS_DENOMINATOR,
    LOCK_0_DAYS, LOCK_180_DAYS, LOCK_30_DAYS, LOCK_365_DAYS, LOCK_90_DAYS, MAX_PRICE, MAX_SUPPLY,
    MULTIPLIER_0_DAYS, MULTIPLIER_180_DAYS, MULTIPLIER_30_DAYS, MULTIPLIER_365_DAYS,
    MULTIPLIER_90_DAYS, PRICE_SCALE, ROLE_ADMIN, ROLE_MODERATOR, SECONDS_PER_YEAR, SELL_FEE_BPS,
    STATUS_ACTIVE, STATUS_EXECUTED, SUBSCRIPTION_ACTIVE,
};
use crate::curve::{
    buy_cost, curve_price, law_buy_cost_additive, law_sell_then_buy_back, lemma_fee_positive,
    lemma_price_bounds,
    lemma_price_sum_bounds, price_sum, sell_fee, sell_payout, sell_proceeds,
};
use crate::errors::SocialFiError;

verus! {

// ==================== Platform Config ====================

/// Platform-wide switches, handed to every engine call.
#[derive(Clone, Copy, Debug, PartialEq, Eq)]
pub struct PlatformConfig {
    pub admin: Address,
    pub fee_collector: Address,
    pub paused: bool,
    /// Share of lifetime volume the platform asks pools to retain, in basis
    /// points. It is on record for the platform's operators; sales keep the
    /// fixed tenth of `MIN_LIQUIDITY_DIVISOR`.
    pub min_liquidity_bps: u64,
    pub bump: u8,
}

// ==================== User Profile ====================

/// The profile of one user.
#[derive(Clone, Debug, PartialEq, Eq)]
pub struct UserProfile {
    pub owner: Address,
    pub username: String,
    pub total_tips_sent: u64,
    pub total_tips_received: u64,
    pub posts_count: u64,
    pub followers_count: u64,
    pub following_count: u64,
    pub referral_code: String,
    pub referred_by: Option<Address>,
    pub referrals_count: u64,
    pub created_at: i64,
    pub bump: u8,
}

// ==================== Creator Shares ====================

/// The share market of one creator.
#[derive(Clone, Copy, Debug, PartialEq, Eq)]
pub struct CreatorPool {
    pub creator: Address,
    /// Shares in circulation.
    pub supply: u64,
    /// Number of positions that hold at least one share.
    pub holders_count: u64,
    pub base_price: u64,
    /// Lifetime value traded through the pool, buys and sells together.
    pub total_volume: u64,
    pub created_at: i64,
    pub bump: u8,
}

impl CreatorPool {
    /// A pool is well formed while its supply is within the ceiling.
    pub open spec fn wf(&self) -> bool {
        self.supply <= MAX_SUPPLY
    }

    /// What `calculate_price` returns for each supply.
    pub open spec fn price_outcome(&self, supply: u64) -> Result<u64, SocialFiError> {
        if supply > MAX_SUPPLY {
            Err(SocialFiError::SupplyTooHigh)
        } else {
            Ok(curve_price(self.base_price as int, supply as int) as u64)
        }
    }

    /// What `calculate_buy_cost` returns for each amount.
    pub open spec fn buy_cost_outcome(&self, amount: u64) -> Result<u64, SocialFiError> {
        if self.supply + amount > u64::MAX {
            Err(SocialFiError::ArithmeticOverflow)
        } else if self.supply + amount > MAX_SUPPLY {
            Err(SocialFiError::SupplyTooHigh)
        } else if buy_cost(self.base_price as int, self.supply as int, amount as int) > u64::MAX {
            Err(SocialFiError::PriceTooHigh)
        } else {
            Ok(buy_cost(self.base_price as int, self.supply as int, amount as int) as u64)
        }
    }

    /// What `calculate_sell_proceeds` returns for each amount.
    pub open spec fn sell_proceeds_outcome(&self, amount: u64) -> Result<u64, SocialFiError> {
        if amount == 0 {
            Ok(0)
        } else if self.supply > MAX_SUPPLY {
            Err(SocialFiError::SupplyTooHigh)
        } else if amount > self.supply + 1 {
            Err(SocialFiError::ArithmeticUnderflow)
        } else if sell_proceeds(self.base_price as int, self.supply as int, amount as int)
            * SELL_FEE_BPS > u64::MAX {
            Err(SocialFiError::ArithmeticOverflow)
        } else {
            Ok(sell_proceeds(self.base_price as int, self.supply as int, amount as int) as u64)
        }
    }

    /// What `calculate_sell_return` returns for each amount.
    pub open spec fn sell_return_outcome(&self, amount: u64) -> Result<u64, SocialFiError> {
        match self.sell_proceeds_outcome(amount) {
            Ok(proceeds) => Ok(sell_payout(proceeds as int) as u64),
            Err(e) => Err(e),
        }
    }

    /// Price of one share at the given supply.
    ///
    /// Rejects a supply above `MAX_SUPPLY` with `SupplyTooHigh`; otherwise the
    /// result is the curve price, which is never below the pool's base price.
    pub fn calculate_price(&self, supply: u64) -> (r: Result<u64, SocialFiError>)
        ensures
            r == self.price_outcome(supply),
            r matches Ok(p) ==> p >= self.base_price,
    {
        if supply > MAX_SUPPLY {
            return Err(SocialFiError::SupplyTooHigh);
        }
        let steps: u128 = (supply / PRICE_SCALE) as u128;
        assert(steps * steps <= 100_000_000) by (nonlinear_arith)
            requires
                steps <= 10_000,
        ;
        let multiplier: u128 = steps * steps;
        assert(self.base_price * multiplier <= 0xffff_ffff_ffff_ffff * 100_000_000)
            by (nonlinear_arith)
            requires
                self.base_price <= 0xffff_ffff_ffff_ffff,
                multiplier <= 100_000_000,
        ;
        let raw: u128 = (self.base_price as u128) * multiplier;
        let capped: u128 = if raw <= MAX_PRICE as u128 {
            raw
        } else {
            MAX_PRICE as u128
        };
        let price: u64 = capped as u64;
        if price >= self.base_price {
            Ok(price)
        } else {
            Ok(self.base_price)
        }
    }

    /// Total cost of buying `amount` shares at the pool's current supply.
    ///
    /// Share number `i` of the order is priced at supply `self.supply + i + 1`.
    /// Rejects with `ArithmeticOverflow` when the final supply does not fit in
    /// 64 bits, with `SupplyTooHigh` when it exceeds `MAX_SUPPLY`, and with
    /// `PriceTooHigh` when the total does not fit in 64 bits.
    pub fn calculate_buy_cost(&self, amount: u64) -> (r: Result<u64, SocialFiError>)
        ensures
            r == self.buy_cost_outcome(amount),
    {
        let final_supply: u64 = match self.supply.checked_add(amount) {
            Some(v) => v,
            None => {
                return Err(SocialFiError::ArithmeticOverflow);
            },
        };
        if final_supply > MAX_SUPPLY {
            return Err(SocialFiError::SupplyTooHigh);
        }
        let mut total: u128 = 0;
        let mut i: u64 = 0;
        while i < amount
            invariant
                i <= amount,
                self.supply + amount <= MAX_SUPPLY,
                total == price_sum(self.base_price as int, self.supply as int, self.supply + i),
                total <= i * u64::MAX,
            decreases amount - i,
        {
            let price: u64 = match self.calculate_price(self.supply + i + 1) {
                Ok(p) => p,
                Err(e) => {
                    return Err(e);
                },
            };
            proof {
                lemma_price_bounds(self.base_price as int, self.supply + i + 1);
            }
            total = total + price as u128;
            i = i + 1;
        }
        if total > u64::MAX as u128 {
            Err(SocialFiError::PriceTooHigh)
        } else {
            Ok(total as u64)
        }
    }

    /// Value of selling `amount` shares at the pool's current supply, before
    /// the fee.
    ///
    /// Share number `i` of the order is priced at supply `self.supply - i`.
    /// Rejects with `SupplyTooHigh` when the pool stands above `MAX_SUPPLY`,
    /// with `ArithmeticUnderflow` when the walk would pass below supply zero,
    /// and with `ArithmeticOverflow` when the fee on the total cannot be
    /// computed in 64 bits.
    pub fn calculate_sell_proceeds(&self, amount: u64) -> (r: Result<u64, SocialFiError>)
        ensures
            r == self.sell_proceeds_outcome(amount),
            r matches Ok(v) ==> v * SELL_FEE_BPS <= u64::MAX,
    {
        if amount == 0 {
            return Ok(0);
        }
        if self.supply > MAX_SUPPLY {
            return Err(SocialFiError::SupplyTooHigh);
        }
        if amount > self.supply + 1 {
            return Err(SocialFiError::ArithmeticUnderflow);
        }
        let mut total: u128 = 0;
        let mut i: u64 = 0;
        while i < amount
            invariant
                i <= amount <= self.supply + 1,
                self.supply <= MAX_SUPPLY,
                total == price_sum(
                    self.base_price as int,
                    self.supply - amount,
                    self.supply - amount + i,
                ),
                total <= i * u64::MAX,
            decreases amount - i,
        {
            let price: u64 = match self.calculate_price(self.supply + 1 - amount + i) {
                Ok(p) => p,
                Err(e) => {
                    return Err(e);
                },
            };
            proof {
                lemma_price_bounds(self.base_price as int, self.supply - amount + i + 1);
            }
            total = total + price as u128;
            i = i + 1;
        }
        assert(total * SELL_FEE_BPS <= 1_000_001_000 * u64::MAX) by (nonlinear_arith)
            requires
                total <= i * u64::MAX,
                i <= 1_000_001,
                SELL_FEE_BPS == 1000,
        ;
        if total * (SELL_FEE_BPS as u128) > u64::MAX as u128 {
            Err(SocialFiError::ArithmeticOverflow)
        } else {
            Ok(total as u64)
        }
    }

    /// What a seller receives for `amount` shares at the pool's current
    /// supply: the proceeds of the sale less the sell fee.
    pub fn calculate_sell_return(&self, amount: u64) -> (r: Result<u64, SocialFiError>)
        ensures
            r == self.sell_return_outcome(amount),
    {
        let proceeds: u64 = match self.calculate_sell_proceeds(amount) {
            Ok(v) => v,
            Err(e) => {
                return Err(e);
            },
        };
        let fee: u64 = proceeds * SELL_FEE_BPS / BPS_DENOMINATOR;
        Ok(proceeds - fee)
    }
}

/// An order may be split: buying `a` shares and then `b` more, the second
/// order priced at the supply the first one left, reaches the same supply
/// and costs exactly what buying `a + b` shares at once costs. The only way
/// the single order can fail within the supply ceiling is a total that does
/// not fit in 64 bits.
pub proof fn law_split_buy_costs_the_same(pool: CreatorPool, a: u64, b: u64)
    requires
        pool.supply + a + b <= MAX_SUPPLY,
    ensures
        match pool.buy_cost_outcome((a + b) as u64) {
            Ok(total) => pool.buy_cost_outcome(a) matches Ok(first) && (CreatorPool {
                supply: (pool.supply + a) as u64,
                ..pool
            }).buy_cost_outcome(b) matches Ok(second) && first + second == total,
            Err(e) => e == SocialFiError::PriceTooHigh,
        },
        (pool.supply + a) + b == pool.supply + (a + b),
{
    let base = pool.base_price as int;
    let supply = pool.supply as int;
    law_buy_cost_additive(base, supply, a as int, b as int);
    lemma_price_sum_bounds(base, supply, supply + a);
    lemma_price_sum_bounds(base, supply + a, supply + a + b);
}

/// Selling shares and buying the same number back, with no other trade in
/// between, never yields a gain: what the sale pays is at most what the
/// buy-back costs, and strictly less whenever the fee is not zero, as it is
/// for every pool whose base price is at least ten.
pub proof fn law_round_trip_never_gains(pool: CreatorPool, amount: u64)
    requires
        0 < amount <= pool.supply <= MAX_SUPPLY,
        pool.sell_return_outcome(amount) is Ok,
    ensures
        pool.sell_proceeds_outcome(amount) matches Ok(proceeds) && pool.sell_return_outcome(
            amount,
        ) matches Ok(paid) && (CreatorPool {
            supply: (pool.supply - amount) as u64,
            ..pool
        }).buy_cost_outcome(amount) matches Ok(cost) && cost == proceeds && paid <= cost && (
        sell_fee(proceeds as int) > 0 ==> paid < cost) && (pool.base_price >= 10 ==> paid < cost),
{
    let base = pool.base_price as int;
    let supply = pool.supply as int;
    law_sell_then_buy_back(base, supply, amount as int);
    lemma_price_sum_bounds(base, supply - amount, supply);
    if pool.base_price >= 10 {
        lemma_fee_positive(base, supply, amount as int);
    }
}

/// The shares one holder owns of one creator.
#[derive(Clone, Copy, Debug, PartialEq, Eq)]
pub struct ShareHolding {
    pub holder: Address,
    pub creator: Address,
    pub amount: u64,
    /// Volume-weighted average price paid per share.
    pub average_price: u64,
    /// Time of the first buy; zero while the position was never used.
    pub created_at: i64,
    pub bump: u8,
}

// ==================== Governance ====================

/// Voting-power multiplier of a lock period, in basis points; `None` for a
/// period outside the fixed set.
pub open spec fn lock_multiplier(lock_period: u64) -> Option<u64> {
    if lock_period == LOCK_0_DAYS {
        Some(MULTIPLIER_0_DAYS)
    } else if lock_period == LOCK_30_DAYS {
        Some(MULTIPLIER_30_DAYS)
    } else if lock_period == LOCK_90_DAYS {
        Some(MULTIPLIER_90_DAYS)
    } else if lock_period == LOCK_180_DAYS {
        Some(MULTIPLIER_180_DAYS)
    } else if lock_period == LOCK_365_DAYS {
        Some(MULTIPLIER_365_DAYS)
    } else {
        None
    }
}

/// Annual reward rate of a lock period, in basis points. A period outside
/// the fixed set earns the rate of the shortest one.
pub open spec fn lock_apy(lock_period: u64) -> u64 {
    if lock_period == LOCK_30_DAYS {
        APY_30_DAYS
    } else if lock_period == LOCK_90_DAYS {
        APY_90_DAYS
    } else if lock_period == LOCK_180_DAYS {
        APY_180_DAYS
    } else if lock_period == LOCK_365_DAYS {
        APY_365_DAYS
    } else {
        APY_0_DAYS
    }
}

/// The single stake of one staker.
#[derive(Clone, Copy, Debug, PartialEq, Eq)]
pub struct StakePosition {
    pub staker: Address,
    pub amount: u64,
    pub staked_at: i64,
    /// Lock period in days.
    pub lock_period: u64,
    pub unlocks_at: i64,
    pub rewards: u64,
    pub voting_power: u64,
    pub bump: u8,
}

impl StakePosition {
    /// What `calculate_voting_power` returns: the amount scaled by the
    /// multiplier of the lock period.
    pub open spec fn voting_power_outcome(amount: u64, lock_period: u64) -> Result<
        u64,
        SocialFiError,
    > {
        match lock_multiplier(lock_period) {
            None => Err(SocialFiError::InvalidLockPeriod),
            Some(multiplier) => if amount * multiplier > u64::MAX {
                Err(SocialFiError::ArithmeticOverflow)
            } else {
                Ok((amount * multiplier / (BPS_DENOMINATOR as int)) as u64)
            },
        }
    }

    /// Rewards accrued from the stake time up to `current_time`, as a
    /// mathematical integer:
    /// `amount * apy * elapsed / SECONDS_PER_YEAR / BPS_DENOMINATOR`. No
    /// intermediate product is bounded. For a time before the stake the
    /// value is negative, unless the position is empty.
    pub open spec fn accrued_rewards(&self, current_time: i64) -> int {
        self.amount * lock_apy(self.lock_period) * (current_time - self.staked_at) / (
        SECONDS_PER_YEAR as int) / (BPS_DENOMINATOR as int)
    }

    /// What `calculate_rewards` returns: the accrued rewards wherever they
    /// are a 64-bit unsigned number; `InvalidTimestamp` where they are
    /// negative, `ArithmeticOverflow` where they are too large.
    pub open spec fn rewards_outcome(&self, current_time: i64) -> Result<u64, SocialFiError> {
        if self.accrued_rewards(current_time) < 0 {
            Err(SocialFiError::InvalidTimestamp)
        } else if self.accrued_rewards(current_time) > u64::MAX {
            Err(SocialFiError::ArithmeticOverflow)
        } else {
            Ok(self.accrued_rewards(current_time) as u64)
        }
    }

    /// Voting power of `amount` tokens locked for `lock_period` days.
    ///
    /// Rejects a period outside {0, 30, 90, 180, 365} with
    /// `InvalidLockPeriod`, and an amount whose product with the multiplier
    /// does not fit in 64 bits with `ArithmeticOverflow`.
    pub fn calculate_voting_power(amount: u64, lock_period: u64) -> (r: Result<u64, SocialFiError>)
        ensures
            r == Self::voting_power_outcome(amount, lock_period),
    {
        let multiplier: u64 = if lock_period == LOCK_0_DAYS {
            MULTIPLIER_0_DAYS
        } else if lock_period == LOCK_30_DAYS {
            MULTIPLIER_30_DAYS
        } else if lock_period == LOCK_90_DAYS {
            MULTIPLIER_90_DAYS
        } else if lock_period == LOCK_180_DAYS {
            MULTIPLIER_180_DAYS
        } else if lock_period == LOCK_365_DAYS {
            MULTIPLIER_365_DAYS
        } else {
            return Err(SocialFiError::InvalidLockPeriod);
        };
        match amount.checked_mul(multiplier) {
            Some(scaled) => Ok(scaled / BPS_DENOMINATOR),
            None => Err(SocialFiError::ArithmeticOverflow),
        }
    }

    /// Rewards accrued from the stake time up to `current_time`.
    ///
    /// The products are taken in a wider type, so the call succeeds
    /// whenever the rewards themselves fit in 64 bits. It rejects with
    /// `ArithmeticOverflow` when they do not, and with `InvalidTimestamp`
    /// when `current_time` lies before the stake and the position is not
    /// empty.
    pub fn calculate_rewards(&self, current_time: i64) -> (r: Result<u64, SocialFiError>)
        ensures
            r == self.rewards_outcome(current_time),
    {
        let apy: u64 = if self.lock_period == LOCK_30_DAYS {
            APY_30_DAYS
        } else if self.lock_period == LOCK_90_DAYS {
            APY_90_DAYS
        } else if self.lock_period == LOCK_180_DAYS {
            APY_180_DAYS
        } else if self.lock_period == LOCK_365_DAYS {
            APY_365_DAYS
        } else {
            APY_0_DAYS
        };
        assert(self.amount * apy <= 0xffff_ffff_ffff_ffff * 3000) by (nonlinear_arith)
            requires
                self.amount <= 0xffff_ffff_ffff_ffff,
                apy <= 3000,
        ;
        let yearly: u128 = (self.amount as u128) * (apy as u128);
        let time_staked: i128 = current_time as i128 - self.staked_at as i128;
        if time_staked < 0 {
            if yearly == 0 {
                assert(yearly * time_staked == 0) by (nonlinear_arith)
                    requires
                        yearly == 0,
                ;
                return Ok(0);
            }
            assert(yearly * time_staked < 0) by (nonlinear_arith)
                requires
                    yearly > 0,
                    time_staked < 0,
            ;
            return Err(SocialFiError::InvalidTimestamp);
        }
        let elapsed: u128 = time_staked as u128;
        assert(yearly * elapsed >= 0) by (nonlinear_arith)
            requires
                yearly >= 0,
                elapsed >= 0,
        ;
        match yearly.checked_mul(elapsed) {
            Some(accrued) => {
                let rewards: u128 = accrued / (SECONDS_PER_YEAR as u128) / (BPS_DENOMINATOR as u128);
                if rewards > u64::MAX as u128 {
                    Err(SocialFiError::ArithmeticOverflow)
                } else {
                    Ok(rewards as u64)
                }
            },
            None => Err(SocialFiError::ArithmeticOverflow),
        }
    }

    /// Whether the lock has run out at `current_time`.
    pub fn is_unlocked(&self, current_time: i64) -> (r: bool)
        ensures
            r == (current_time >= self.unlocks_at),
    {
        current_time >= self.unlocks_at
    }
}

/// A proposal and its running tallies.
#[derive(Clone, Debug, PartialEq, Eq)]
pub struct Proposal {
    pub id: Address,
    pub proposer: Address,
    pub title: String,
    pub description: String,
    /// 0 = protocol, 1 = treasury, 2 = feature, 3 = parameter.
    pub category: u8,
    /// 0 = active, 1 = passed, 2 = rejected, 3 = executed, 4 = cancelled.
    pub status: u8,
    pub created_at: i64,
    pub voting_ends_at: i64,
    /// Seconds that must pass after the end of voting before execution.
    pub execution_delay: i64,
    pub votes_for: u64,
    pub votes_against: u64,
    pub votes_abstain: u64,
    /// Combined vote weight needed for the proposal to pass.
    pub quorum_required: u64,
    pub executed_at: Option<i64>,
    pub bump: u8,
}

impl Proposal {
    /// Voting is open: the proposal is active and its deadline lies ahead.
    pub open spec fn active_at(&self, current_time: i64) -> bool {
        self.status == STATUS_ACTIVE && current_time < self.voting_ends_at
    }

    /// The tallies meet the quorum and a strict majority is in favour.
    pub open spec fn passed(&self) -> bool {
        self.votes_for + self.votes_against + self.votes_abstain >= self.quorum_required
            && self.votes_for > self.votes_against
    }

    /// The proposal was executed before.
    pub open spec fn already_executed(&self) -> bool {
        self.status == STATUS_EXECUTED || self.executed_at is Some
    }

    /// The proposal has passed by its tallies, its execution delay has run
    /// out, and it was not executed before.
    pub open spec fn executable_at(&self, current_time: i64) -> bool {
        self.passed() && current_time >= self.voting_ends_at + self.execution_delay
            && !self.already_executed()
    }

    /// Whether votes are still accepted at `current_time`.
    pub fn is_active(&self, current_time: i64) -> (r: bool)
        ensures
            r == self.active_at(current_time),
    {
        self.status == STATUS_ACTIVE && current_time < self.voting_ends_at
    }

    /// Whether the tallies meet the quorum with a strict majority in favour.
    /// The stored status plays no part.
    pub fn has_passed(&self) -> (r: bool)
        ensures
            r == self.passed(),
    {
        let total_votes: u128 = self.votes_for as u128 + self.votes_against as u128
            + self.votes_abstain as u128;
        total_votes >= self.quorum_required as u128 && self.votes_for > self.votes_against
    }

    /// Whether the proposal may be executed at `current_time`.
    pub fn can_execute(&self, current_time: i64) -> (r: bool)
        ensures
            r == self.executable_at(current_time),
    {
        let earliest: i128 = self.voting_ends_at as i128 + self.execution_delay as i128;
        self.has_passed() && current_time as i128 >= earliest && self.status
            != STATUS_EXECUTED && self.executed_at.is_none()
    }
}

/// The vote one voter cast on one proposal, with the power it carried.
#[derive(Clone, Copy, Debug, PartialEq, Eq)]
pub struct Vote {
    pub proposal: Address,
    pub voter: Address,
    /// 0 = for, 1 = against, 2 = abstain.
    pub vote_type: u8,
    /// Voting power of the voter at the time of the vote.
    pub voting_power: u64,
    pub voted_at: i64,
    pub bump: u8,
}

/// A tie between the votes in favour and the votes against never passes,
/// whatever the quorum and the abstentions.
pub proof fn law_tie_never_passes(proposal: Proposal)
    requires
        proposal.votes_for == proposal.votes_against,
    ensures
        !proposal.passed(),
{
}

/// For a fixed amount, a longer lock never gives less voting power.
pub proof fn law_voting_power_monotonic(amount: u64)
    requires
        amount * MULTIPLIER_365_DAYS <= u64::MAX,
    ensures
        StakePosition::voting_power_outcome(amount, LOCK_0_DAYS) matches Ok(unlocked)
            && StakePosition::voting_power_outcome(amount, LOCK_30_DAYS) matches Ok(month)
            && StakePosition::voting_power_outcome(amount, LOCK_90_DAYS) matches Ok(quarter)
            && StakePosition::voting_power_outcome(amount, LOCK_180_DAYS) matches Ok(half_year)
            && StakePosition::voting_power_outcome(amount, LOCK_365_DAYS) matches Ok(year)
            && unlocked == amount && unlocked <= month <= quarter <= half_year <= year,
{
}

/// For a fixed amount of at least five tokens, a longer lock gives strictly
/// more voting power.
pub proof fn law_voting_power_strictly_monotonic(amount: u64)
    requires
        amount >= 5,
        amount * MULTIPLIER_365_DAYS <= u64::MAX,
    ensures
        StakePosition::voting_power_outcome(amount, LOCK_0_DAYS) matches Ok(unlocked)
            && StakePosition::voting_power_outcome(amount, LOCK_30_DAYS) matches Ok(month)
            && StakePosition::voting_power_outcome(amount, LOCK_90_DAYS) matches Ok(quarter)
            && StakePosition::voting_power_outcome(amount, LOCK_180_DAYS) matches Ok(half_year)
            && StakePosition::voting_power_outcome(amount, LOCK_365_DAYS) matches Ok(year)
            && unlocked < month < quarter < half_year < year,
{
}

// ==================== Subscriptions ====================

/// A subscription offer of one creator.
#[derive(Clone, Debug, PartialEq, Eq)]
pub struct SubscriptionTier {
    pub creator: Address,
    pub tier_id: u64,
    pub name: String,
    pub description: String,
    /// Price of one period, in lamports.
    pub price: u64,
    pub duration_days: u64,
    pub subscriber_count: u64,
    pub created_at: i64,
    pub bump: u8,
}

/// The subscription of one user to one tier.
#[derive(Clone, Copy, Debug, PartialEq, Eq)]
pub struct Subscription {
    pub subscriber: Address,
    pub creator: Address,
    pub tier_id: u64,
    pub start_date: i64,
    pub end_date: i64,
    /// 0 = active, 1 = expired, 2 = cancelled.
    pub status: u8,
    pub auto_renew: bool,
    pub created_at: i64,
    pub bump: u8,
}

impl Subscription {
    /// Whether the subscription is running at `current_time`: its status
    /// is active and its end date lies ahead.
    pub fn is_active(&self, current_time: i64) -> (r: bool)
        ensures
            r == (self.status == SUBSCRIPTION_ACTIVE && current_time < self.end_date),
    {
        self.status == SUBSCRIPTION_ACTIVE && current_time < self.end_date
    }
}

// ==================== Groups ====================

/// A group of users.
#[derive(Clone, Debug, PartialEq, Eq)]
pub struct Group {
    pub id: Address,
    pub name: String,
    pub description: String,
    pub creator: Address,
    /// 0 = public, 1 = private, 2 = secret.
    pub privacy: u8,
    /// 0 = free, 1 = pay, 2 = hold a token, 3 = hold a collectible.
    pub entry_requirement: u8,
    pub entry_price: Option<u64>,
    pub token_mint: Option<Address>,
    pub nft_collection: Option<Address>,
    pub member_count: u64,
    pub post_count: u64,
    pub created_at: i64,
    pub bump: u8,
}

/// The membership of one wallet in one group.
#[derive(Clone, Copy, Debug, PartialEq, Eq)]
pub struct GroupMember {
    pub group: Address,
    pub wallet: Address,
    /// 0 = owner, 1 = admin, 2 = moderator, 3 = member.
    pub role: u8,
    pub joined_at: i64,
    pub banned: bool,
    pub bump: u8,
}

impl GroupMember {
    /// Owners and admins manage members.
    pub fn can_manage_members(&self) -> (r: bool)
        ensures
            r == (self.role <= ROLE_ADMIN),
    {
        self.role <= ROLE_ADMIN
    }

    /// Owners, admins and moderators moderate.
    pub fn can_moderate(&self) -> (r: bool)
        ensures
            r == (self.role <= ROLE_MODERATOR),
    {
        self.role <= ROLE_MODERATOR
    }
}

// ==================== Marketplace ====================

/// A username minted as a token.
#[derive(Clone, Debug, PartialEq, Eq)]
pub struct UsernameNFT {
    pub owner: Address,
    pub username: String,
    pub mint: Address,
    pub metadata_uri: String,
    pub verified: bool,
    pub minted_at: i64,
    pub bump: u8,
}

/// A username put up for sale.
#[derive(Clone, Debug, PartialEq, Eq)]
pub struct Listing {
    pub seller: Address,
    pub username: String,
    pub price: u64,
    /// 0 = premium, 1 = short, 2 = rare, 3 = custom.
    pub category: u8,
    pub listed_at: i64,
    pub expires_at: Option<i64>,
    pub bump: u8,
}

/// An offer on a listing, with its funds held in escrow.
#[derive(Clone, Copy, Debug, PartialEq, Eq)]
pub struct Offer {
    pub listing: Address,
    pub buyer: Address,
    pub amount: u64,
    pub created_at: i64,
    pub expires_at: i64,
    pub bump: u8,
}

impl Offer {
    /// Whether the offer has run out at `current_time`.
    pub fn is_expired(&self, current_time: i64) -> (r: bool)
        ensures
            r == (current_time >= self.expires_at),
    {
        current_time >= self.expires_at
    }
}

/// What a token account says about its holder, as far as listings and
/// sales look at it.
#[derive(Clone, Copy, Debug, PartialEq, Eq)]
pub struct TokenHolding {
    pub mint: Address,
    pub owner: Address,
    pub amount: u64,
}

// ==================== Posts ====================

/// A post, identified by its author and a nonce.
#[derive(Clone, Debug, PartialEq, Eq)]
pub struct Post {
    pub author: Address,
    pub uri: String,
    pub nonce: String,
    pub mint: Option<Address>,
    pub created_at: i64,
    pub bump: u8,
}

// ==================== Social Interactions ====================

/// One user follows another.
#[derive(Clone, Copy, Debug, PartialEq, Eq)]
pub struct Follow {
    pub follower: Address,
    pub following: Address,
    pub created_at: i64,
    pub bump: u8,
}

/// One user likes a post.
#[derive(Clone, Copy, Debug, PartialEq, Eq)]
pub struct Like {
    pub user: Address,
    pub post: Address,
    pub created_at: i64,
    pub bump: u8,
}

/// One user reposts a post.
#[derive(Clone, Copy, Debug, PartialEq, Eq)]
pub struct Repost {
    pub user: Address,
    pub original_post: Address,
    pub created_at: i64,
    pub bump: u8,
}

/// A comment on a post.
#[derive(Clone, Debug, PartialEq, Eq)]
pub struct Comment {
    pub author: Address,
    pub post: Address,
    pub content: String,
    pub created_at: i64,
    pub bump: u8,
}

} // verus!
