//! The bonding-curve market: opening a pool, buying and selling shares.
//!
//! Each operation decides on plain records and reports what has to move
//! between the trader and the pool's liquidity reserve; moving it is the
//! caller's part. A rejected operation changes nothing.

use vstd::prelude::*;
use crate::address::Address;
use crate::constants::{
    BASE_PRICE, BPS_DENOMINATOR, MAX_SHARES_PER_TX, MIN_LIQUIDITY_DIVISOR, SELL_FEE_BPS,
};
use crate::curve::{sell_fee, sell_payout};
use crate::errors::SocialFiError;
use crate::events::{SharesPurchased, SharesSold};
use crate::state::{CreatorPool, PlatformConfig, ShareHolding};

verus! {

// ==================== Initialize Creator Pool ====================

/// A freshly opened pool: no supply, no holders, no volume, and the standard
/// base price.
pub open spec fn opened_pool(creator: Address, now: i64, bump: u8) -> CreatorPool {
    CreatorPool {
        creator,
        supply: 0,
        holders_count: 0,
        base_price: BASE_PRICE,
        total_volume: 0,
        created_at: now,
        bump,
    }
}

/// Opens the share market of `creator`. Rejected with `ContractPaused`
/// while the platform is paused.
pub fn initialize_creator_pool(
    config: &PlatformConfig,
    creator: Address,
    now: i64,
    bump: u8,
) -> (r: Result<CreatorPool, SocialFiError>)
    ensures
        config.paused ==> r == Err::<CreatorPool, SocialFiError>(SocialFiError::ContractPaused),
        !config.paused ==> r == Ok::<CreatorPool, SocialFiError>(opened_pool(creator, now, bump)),
        r matches Ok(pool) ==> pool.wf(),
{
    if config.paused {
        return Err(SocialFiError::ContractPaused);
    }
    Ok(
        CreatorPool {
            creator,
            supply: 0,
            holders_count: 0,
            base_price: BASE_PRICE,
            total_volume: 0,
            created_at: now,
            bump,
        },
    )
}

// ==================== Buy Shares ====================

/// Why a buy order is rejected, if it is. The checks apply in this order:
/// platform paused; amount zero or above the per-order ceiling; the cost
/// (final supply out of range, total too large); average price above the
/// buyer's limit; a counter that would overflow.
pub open spec fn buy_rejection(
    config: PlatformConfig,
    pool: CreatorPool,
    holding: ShareHolding,
    amount: u64,
    max_price_per_share: u64,
) -> Option<SocialFiError> {
    if config.paused {
        Some(SocialFiError::ContractPaused)
    } else if amount == 0 || amount > MAX_SHARES_PER_TX {
        Some(SocialFiError::InvalidAmount)
    } else {
        match pool.buy_cost_outcome(amount) {
            Err(e) => Some(e),
            Ok(total_cost) => if total_cost / amount > max_price_per_share {
                Some(SocialFiError::SlippageExceeded)
            } else if pool.total_volume + total_cost > u64::MAX || (holding.amount == 0
                && pool.holders_count + 1 > u64::MAX) || holding.amount + amount > u64::MAX
                || holding.amount * holding.average_price + total_cost > u64::MAX {
                Some(SocialFiError::ArithmeticOverflow)
            } else {
                None
            },
        }
    }
}

/// The pool after a buy of `amount` shares for `total_cost`.
pub open spec fn pool_after_buy(
    pool: CreatorPool,
    holding: ShareHolding,
    amount: u64,
    total_cost: u64,
) -> CreatorPool {
    CreatorPool {
        supply: (pool.supply + amount) as u64,
        total_volume: (pool.total_volume + total_cost) as u64,
        holders_count: if holding.amount == 0 {
            (pool.holders_count + 1) as u64
        } else {
            pool.holders_count
        },
        ..pool
    }
}

/// The buyer's position after a buy of `amount` shares for `total_cost`:
/// the amount grows, the average price becomes the volume-weighted average
/// of the old position and the new order, and a position used for the first
/// time is stamped with the time and the bump.
pub open spec fn holding_after_buy(
    pool: CreatorPool,
    holding: ShareHolding,
    buyer: Address,
    holding_bump: u8,
    now: i64,
    amount: u64,
    total_cost: u64,
) -> ShareHolding {
    ShareHolding {
        holder: buyer,
        creator: pool.creator,
        amount: (holding.amount + amount) as u64,
        average_price: ((holding.amount * holding.average_price + total_cost) / (holding.amount
            + amount)) as u64,
        created_at: if holding.created_at == 0 {
            now
        } else {
            holding.created_at
        },
        bump: if holding.created_at == 0 {
            holding_bump
        } else {
            holding.bump
        },
    }
}

/// What a settled buy reports.
pub open spec fn buy_receipt(
    pool: CreatorPool,
    buyer: Address,
    now: i64,
    amount: u64,
    total_cost: u64,
) -> SharesPurchased {
    SharesPurchased {
        buyer,
        creator: pool.creator,
        amount,
        price: total_cost / amount,
        total_cost,
        timestamp: now,
    }
}

/// Buys `amount` shares of the pool for `buyer`, at an average price of at
/// most `max_price_per_share`.
///
/// On success the pool's supply and volume grow, the holder count grows if
/// the position was empty, the position is updated, and the receipt names
/// the `total_cost` that the buyer owes the liquidity reserve. On rejection
/// nothing changes.
pub fn buy_shares(
    config: &PlatformConfig,
    pool: &mut CreatorPool,
    holding: &mut ShareHolding,
    buyer: Address,
    holding_bump: u8,
    now: i64,
    amount: u64,
    max_price_per_share: u64,
) -> (r: Result<SharesPurchased, SocialFiError>)
    ensures
        match buy_rejection(*config, *old(pool), *old(holding), amount, max_price_per_share) {
            Some(e) => r == Err::<SharesPurchased, SocialFiError>(e) && *final(pool) == *old(pool)
                && *final(holding) == *old(holding),
            None => old(pool).buy_cost_outcome(amount) matches Ok(total_cost) && r == Ok::<
                SharesPurchased,
                SocialFiError,
            >(buy_receipt(*old(pool), buyer, now, amount, total_cost)) && *final(pool)
                == pool_after_buy(*old(pool), *old(holding), amount, total_cost) && *final(holding)
                == holding_after_buy(
                *old(pool),
                *old(holding),
                buyer,
                holding_bump,
                now,
                amount,
                total_cost,
            ),
        },
        r is Ok && old(pool).wf() ==> final(pool).wf(),
{
    if config.paused {
        return Err(SocialFiError::ContractPaused);
    }
    if amount == 0 || amount > MAX_SHARES_PER_TX {
        return Err(SocialFiError::InvalidAmount);
    }
    let total_cost: u64 = match pool.calculate_buy_cost(amount) {
        Ok(c) => c,
        Err(e) => {
            return Err(e);
        },
    };
    let avg_price: u64 = total_cost / amount;
    if avg_price > max_price_per_share {
        return Err(SocialFiError::SlippageExceeded);
    }
    let is_new_holder: bool = holding.amount == 0;
    let new_supply: u64 = pool.supply + amount;
    let new_volume: u64 = match pool.total_volume.checked_add(total_cost) {
        Some(v) => v,
        None => {
            return Err(SocialFiError::ArithmeticOverflow);
        },
    };
    let new_holders: u64 = if is_new_holder {
        match pool.holders_count.checked_add(1) {
            Some(v) => v,
            None => {
                return Err(SocialFiError::ArithmeticOverflow);
            },
        }
    } else {
        pool.holders_count
    };
    let new_amount: u64 = match holding.amount.checked_add(amount) {
        Some(v) => v,
        None => {
            return Err(SocialFiError::ArithmeticOverflow);
        },
    };
    let held_value: u64 = match holding.amount.checked_mul(holding.average_price) {
        Some(v) => v,
        None => {
            return Err(SocialFiError::ArithmeticOverflow);
        },
    };
    let total_value: u64 = match held_value.checked_add(total_cost) {
        Some(v) => v,
        None => {
            return Err(SocialFiError::ArithmeticOverflow);
        },
    };
    pool.supply = new_supply;
    pool.total_volume = new_volume;
    pool.holders_count = new_holders;
    holding.average_price = total_value / new_amount;
    holding.amount = new_amount;
    holding.holder = buyer;
    holding.creator = pool.creator;
    if holding.created_at == 0 {
        holding.created_at = now;
        holding.bump = holding_bump;
    }
    Ok(
        SharesPurchased {
            buyer,
            creator: pool.creator,
            amount,
            price: avg_price,
            total_cost,
            timestamp: now,
        },
    )
}

// ==================== Sell Shares ====================

/// Why a sell order is rejected, if it is. The checks apply in this order:
/// platform paused; amount zero or above the per-order ceiling; position too
/// small; the proceeds (supply out of range, fee not computable); average
/// payout below the seller's limit; reserve smaller than the payout; reserve
/// left below a tenth of the lifetime volume; a counter that would leave its
/// range.
pub open spec fn sell_rejection(
    config: PlatformConfig,
    pool: CreatorPool,
    holding: ShareHolding,
    reserve_balance: u64,
    amount: u64,
    min_price_per_share: u64,
) -> Option<SocialFiError> {
    if config.paused {
        Some(SocialFiError::ContractPaused)
    } else if amount == 0 || amount > MAX_SHARES_PER_TX {
        Some(SocialFiError::InvalidAmount)
    } else if holding.amount < amount {
        Some(SocialFiError::InsufficientShares)
    } else {
        match pool.sell_proceeds_outcome(amount) {
            Err(e) => Some(e),
            Ok(proceeds) => if sell_payout(proceeds as int) / (amount as int)
                < min_price_per_share {
                Some(SocialFiError::SlippageExceeded)
            } else if reserve_balance < sell_payout(proceeds as int) {
                Some(SocialFiError::InsufficientLiquidity)
            } else if reserve_balance - sell_payout(proceeds as int) < pool.total_volume
                / MIN_LIQUIDITY_DIVISOR {
                Some(SocialFiError::MinimumLiquidityRequired)
            } else if pool.supply < amount {
                Some(SocialFiError::ArithmeticUnderflow)
            } else if pool.total_volume + proceeds > u64::MAX {
                Some(SocialFiError::ArithmeticOverflow)
            } else if holding.amount == amount && pool.holders_count == 0 {
                Some(SocialFiError::ArithmeticUnderflow)
            } else {
                None
            },
        }
    }
}

/// The pool after a sale of `amount` shares worth `proceeds` before the
/// fee. The whole of the proceeds counts towards the lifetime volume.
pub open spec fn pool_after_sell(
    pool: CreatorPool,
    holding: ShareHolding,
    amount: u64,
    proceeds: u64,
) -> CreatorPool {
    CreatorPool {
        supply: (pool.supply - amount) as u64,
        total_volume: (pool.total_volume + proceeds) as u64,
        holders_count: if holding.amount == amount {
            (pool.holders_count - 1) as u64
        } else {
            pool.holders_count
        },
        ..pool
    }
}

/// The seller's position after a sale of `amount` shares.
pub open spec fn holding_after_sell(holding: ShareHolding, amount: u64) -> ShareHolding {
    ShareHolding { amount: (holding.amount - amount) as u64, ..holding }
}

/// What a settled sale reports.
pub open spec fn sell_receipt(
    pool: CreatorPool,
    holding: ShareHolding,
    now: i64,
    amount: u64,
    proceeds: u64,
) -> SharesSold {
    SharesSold {
        seller: holding.holder,
        creator: pool.creator,
        amount,
        price: proceeds / amount,
        total_received: sell_payout(proceeds as int) as u64,
        fee: sell_fee(proceeds as int) as u64,
        timestamp: now,
    }
}

/// Sells `amount` shares out of `holding`, for an average payout of at least
/// `min_price_per_share`, against a liquidity reserve that holds
/// `reserve_balance`.
///
/// On success the pool's supply falls, its volume grows by the proceeds
/// before the fee, the holder count falls if the position is now empty, and
/// the receipt names the `total_received` that the reserve owes the seller.
/// The fee stays in the reserve. The payout never exceeds the reserve, and
/// what is left is at least a tenth of the volume the pool had before the
/// sale. On rejection nothing changes.
pub fn sell_shares(
    config: &PlatformConfig,
    pool: &mut CreatorPool,
    holding: &mut ShareHolding,
    reserve_balance: u64,
    now: i64,
    amount: u64,
    min_price_per_share: u64,
) -> (r: Result<SharesSold, SocialFiError>)
    ensures
        match sell_rejection(
            *config,
            *old(pool),
            *old(holding),
            reserve_balance,
            amount,
            min_price_per_share,
        ) {
            Some(e) => r == Err::<SharesSold, SocialFiError>(e) && *final(pool) == *old(pool)
                && *final(holding) == *old(holding),
            None => old(pool).sell_proceeds_outcome(amount) matches Ok(proceeds) && r == Ok::<
                SharesSold,
                SocialFiError,
            >(sell_receipt(*old(pool), *old(holding), now, amount, proceeds)) && *final(pool)
                == pool_after_sell(*old(pool), *old(holding), amount, proceeds) && *final(holding)
                == holding_after_sell(*old(holding), amount),
        },
        r matches Ok(sold) ==> sold.total_received <= reserve_balance && reserve_balance
            - sold.total_received >= old(pool).total_volume / MIN_LIQUIDITY_DIVISOR,
        r is Ok && old(pool).wf() ==> final(pool).wf(),
{
    if config.paused {
        return Err(SocialFiError::ContractPaused);
    }
    if amount == 0 || amount > MAX_SHARES_PER_TX {
        return Err(SocialFiError::InvalidAmount);
    }
    if holding.amount < amount {
        return Err(SocialFiError::InsufficientShares);
    }
    let proceeds: u64 = match pool.calculate_sell_proceeds(amount) {
        Ok(v) => v,
        Err(e) => {
            return Err(e);
        },
    };
    let fee: u64 = proceeds * SELL_FEE_BPS / BPS_DENOMINATOR;
    let seller_receives: u64 = proceeds - fee;
    if seller_receives / amount < min_price_per_share {
        return Err(SocialFiError::SlippageExceeded);
    }
    if reserve_balance < seller_receives {
        return Err(SocialFiError::InsufficientLiquidity);
    }
    let min_liquidity: u64 = pool.total_volume / MIN_LIQUIDITY_DIVISOR;
    if reserve_balance - seller_receives < min_liquidity {
        return Err(SocialFiError::MinimumLiquidityRequired);
    }
    let new_supply: u64 = match pool.supply.checked_sub(amount) {
        Some(v) => v,
        None => {
            return Err(SocialFiError::ArithmeticUnderflow);
        },
    };
    let new_volume: u64 = match pool.total_volume.checked_add(proceeds) {
        Some(v) => v,
        None => {
            return Err(SocialFiError::ArithmeticOverflow);
        },
    };
    let new_amount: u64 = holding.amount - amount;
    let new_holders: u64 = if new_amount == 0 {
        match pool.holders_count.checked_sub(1) {
            Some(v) => v,
            None => {
                return Err(SocialFiError::ArithmeticUnderflow);
            },
        }
    } else {
        pool.holders_count
    };
    pool.supply = new_supply;
    pool.total_volume = new_volume;
    pool.holders_count = new_holders;
    holding.amount = new_amount;
    Ok(
        SharesSold {
            seller: holding.holder,
            creator: pool.creator,
            amount,
            price: proceeds / amount,
            total_received: seller_receives,
            fee,
            timestamp: now,
        },
    )
}

} // verus!
