use social_fi_contract::address::Address;
use social_fi_contract::constants::{BASE_PRICE, MAX_SUPPLY};
use social_fi_contract::errors::SocialFiError;
use social_fi_contract::events::{SharesPurchased, SharesSold};
use social_fi_contract::instructions::platform::initialize_platform;
use social_fi_contract::instructions::shares::{buy_shares, initialize_creator_pool, sell_shares};
use social_fi_contract::market::ShareMarket;
use social_fi_contract::state::{CreatorPool, PlatformConfig, ShareHolding};

fn addr(n: u8) -> Address {
    Address::new([n; 32])
}

fn open_config() -> PlatformConfig {
    initialize_platform(addr(200), addr(201), 254)
}

fn paused_config() -> PlatformConfig {
    PlatformConfig { paused: true, ..open_config() }
}

fn fresh_pool() -> CreatorPool {
    initialize_creator_pool(&open_config(), addr(1), 1_700_000_000, 250).unwrap()
}

fn vacant(holder: u8) -> ShareHolding {
    ShareHolding {
        holder: addr(holder),
        creator: addr(1),
        amount: 0,
        average_price: 0,
        created_at: 0,
        bump: 0,
    }
}

#[test]
fn initialize_creator_pool_starts_empty() {
    let pool = fresh_pool();
    assert_eq!(
        pool,
        CreatorPool {
            creator: addr(1),
            supply: 0,
            holders_count: 0,
            base_price: BASE_PRICE,
            total_volume: 0,
            created_at: 1_700_000_000,
            bump: 250,
        }
    );
    assert_eq!(
        initialize_creator_pool(&paused_config(), addr(1), 5, 1),
        Err(SocialFiError::ContractPaused)
    );
}

#[test]
fn buy_one_share_at_supply_zero() {
    let mut pool = fresh_pool();
    let mut holding = vacant(0);
    let receipt =
        buy_shares(&open_config(), &mut pool, &mut holding, addr(2), 7, 1_700_000_100, 1, 10_000_000)
            .unwrap();
    assert_eq!(
        receipt,
        SharesPurchased {
            buyer: addr(2),
            creator: addr(1),
            amount: 1,
            price: 10_000_000,
            total_cost: 10_000_000,
            timestamp: 1_700_000_100,
        }
    );
    assert_eq!(pool.supply, 1);
    assert_eq!(pool.holders_count, 1);
    assert_eq!(pool.total_volume, 10_000_000);
    assert_eq!(
        holding,
        ShareHolding {
            holder: addr(2),
            creator: addr(1),
            amount: 1,
            average_price: 10_000_000,
            created_at: 1_700_000_100,
            bump: 7,
        }
    );
}

#[test]
fn buy_250_shares_in_three_orders() {
    let config = open_config();
    let mut pool = fresh_pool();
    let mut holding = vacant(2);
    let first = buy_shares(&config, &mut pool, &mut holding, addr(2), 7, 10, 100, u64::MAX).unwrap();
    assert_eq!(first.total_cost, 1_000_000_000);
    assert_eq!(first.price, 10_000_000);
    let second = buy_shares(&config, &mut pool, &mut holding, addr(2), 9, 20, 100, u64::MAX).unwrap();
    assert_eq!(second.total_cost, 1_030_000_000);
    assert_eq!(second.price, 10_300_000);
    let third = buy_shares(&config, &mut pool, &mut holding, addr(2), 9, 30, 50, u64::MAX).unwrap();
    assert_eq!(third.total_cost, 2_000_000_000);
    assert_eq!(third.price, 40_000_000);
    assert_eq!(pool.supply, 250);
    assert_eq!(pool.holders_count, 1);
    assert_eq!(pool.total_volume, 4_030_000_000);
    assert_eq!(holding.amount, 250);
    // (200 * 10_150_000 + 2_000_000_000) / 250
    assert_eq!(holding.average_price, 16_120_000);
    // the stamp of the first buy stays
    assert_eq!(holding.created_at, 10);
    assert_eq!(holding.bump, 7);
}

#[test]
fn buy_rejections_leave_everything_unchanged() {
    let config = open_config();
    let pool0 = fresh_pool();
    let holding0 = vacant(2);

    let mut pool = pool0;
    let mut holding = holding0;
    assert_eq!(
        buy_shares(&paused_config(), &mut pool, &mut holding, addr(2), 7, 10, 1, u64::MAX),
        Err(SocialFiError::ContractPaused)
    );
    assert_eq!(
        buy_shares(&config, &mut pool, &mut holding, addr(2), 7, 10, 0, u64::MAX),
        Err(SocialFiError::InvalidAmount)
    );
    assert_eq!(
        buy_shares(&config, &mut pool, &mut holding, addr(2), 7, 10, 101, u64::MAX),
        Err(SocialFiError::InvalidAmount)
    );
    assert_eq!(
        buy_shares(&config, &mut pool, &mut holding, addr(2), 7, 10, 1, 9_999_999),
        Err(SocialFiError::SlippageExceeded)
    );
    assert_eq!((pool, holding), (pool0, holding0));

    let mut full = CreatorPool { supply: MAX_SUPPLY - 5, ..pool0 };
    assert_eq!(
        buy_shares(&config, &mut full, &mut holding, addr(2), 7, 10, 6, u64::MAX),
        Err(SocialFiError::SupplyTooHigh)
    );
    let mut huge = CreatorPool { supply: u64::MAX - 5, ..pool0 };
    assert_eq!(
        buy_shares(&config, &mut huge, &mut holding, addr(2), 7, 10, 6, u64::MAX),
        Err(SocialFiError::ArithmeticOverflow)
    );
    let mut steep = CreatorPool { base_price: u64::MAX / 2, ..pool0 };
    assert_eq!(
        buy_shares(&config, &mut steep, &mut holding, addr(2), 7, 10, 3, u64::MAX),
        Err(SocialFiError::PriceTooHigh)
    );
    let mut busy = CreatorPool { total_volume: u64::MAX - 9_999_999, ..pool0 };
    assert_eq!(
        buy_shares(&config, &mut busy, &mut holding, addr(2), 7, 10, 1, u64::MAX),
        Err(SocialFiError::ArithmeticOverflow)
    );
    assert_eq!(busy.supply, 0);
    assert_eq!(holding, holding0);
}

#[test]
fn buy_average_price_is_volume_weighted() {
    let config = open_config();
    let mut pool = CreatorPool { supply: 199, holders_count: 1, ..fresh_pool() };
    let mut holding = ShareHolding {
        holder: addr(2),
        creator: addr(1),
        amount: 3,
        average_price: 10_000_000,
        created_at: 55,
        bump: 4,
    };
    // the next two shares cost 40_000_000 and 40_000_000
    let receipt = buy_shares(&config, &mut pool, &mut holding, addr(2), 9, 99, 2, 40_000_000).unwrap();
    assert_eq!(receipt.total_cost, 80_000_000);
    assert_eq!(holding.amount, 5);
    assert_eq!(holding.average_price, (3 * 10_000_000 + 80_000_000) / 5);
    assert_eq!(pool.holders_count, 1);
    assert_eq!(holding.created_at, 55);
    assert_eq!(holding.bump, 4);
}

#[test]
fn sell_pays_proceeds_less_fee() {
    let config = open_config();
    let mut pool = CreatorPool { supply: 250, holders_count: 1, total_volume: 4_030_000_000, ..fresh_pool() };
    let mut holding = ShareHolding {
        holder: addr(2),
        creator: addr(1),
        amount: 250,
        average_price: 16_120_000,
        created_at: 10,
        bump: 7,
    };
    let sold = sell_shares(&config, &mut pool, &mut holding, 4_030_000_000, 500, 50, 36_000_000).unwrap();
    assert_eq!(
        sold,
        SharesSold {
            seller: addr(2),
            creator: addr(1),
            amount: 50,
            price: 40_000_000,
            total_received: 1_800_000_000,
            fee: 200_000_000,
            timestamp: 500,
        }
    );
    assert_eq!(pool.supply, 200);
    assert_eq!(pool.holders_count, 1);
    assert_eq!(pool.total_volume, 6_030_000_000);
    assert_eq!(holding.amount, 200);
    assert_eq!(holding.average_price, 16_120_000);
}

#[test]
fn sell_whole_position_drops_holder_count() {
    let config = open_config();
    let mut pool = CreatorPool { supply: 3, holders_count: 2, total_volume: 30_000_000, ..fresh_pool() };
    let mut holding = ShareHolding {
        holder: addr(2),
        creator: addr(1),
        amount: 2,
        average_price: 10_000_000,
        created_at: 10,
        bump: 7,
    };
    let sold = sell_shares(&config, &mut pool, &mut holding, 30_000_000, 500, 2, 0).unwrap();
    assert_eq!(sold.total_received, 18_000_000);
    assert_eq!(sold.fee, 2_000_000);
    assert_eq!(pool.supply, 1);
    assert_eq!(pool.holders_count, 1);
    assert_eq!(holding.amount, 0);
}

#[test]
fn sell_rejections_leave_everything_unchanged() {
    let config = open_config();
    let pool0 = CreatorPool { supply: 10, holders_count: 1, total_volume: 100_000_000, ..fresh_pool() };
    let holding0 = ShareHolding {
        holder: addr(2),
        creator: addr(1),
        amount: 10,
        average_price: 10_000_000,
        created_at: 10,
        bump: 7,
    };
    let mut pool = pool0;
    let mut holding = holding0;
    assert_eq!(
        sell_shares(&paused_config(), &mut pool, &mut holding, 100_000_000, 1, 1, 0),
        Err(SocialFiError::ContractPaused)
    );
    assert_eq!(
        sell_shares(&config, &mut pool, &mut holding, 100_000_000, 1, 0, 0),
        Err(SocialFiError::InvalidAmount)
    );
    assert_eq!(
        sell_shares(&config, &mut pool, &mut holding, 100_000_000, 1, 101, 0),
        Err(SocialFiError::InvalidAmount)
    );
    assert_eq!(
        sell_shares(&config, &mut pool, &mut holding, 100_000_000, 1, 11, 0),
        Err(SocialFiError::InsufficientShares)
    );
    // one share pays 9_000_000
    assert_eq!(
        sell_shares(&config, &mut pool, &mut holding, 100_000_000, 1, 1, 9_000_001),
        Err(SocialFiError::SlippageExceeded)
    );
    assert_eq!(
        sell_shares(&config, &mut pool, &mut holding, 8_999_999, 1, 1, 0),
        Err(SocialFiError::InsufficientLiquidity)
    );
    // the reserve must keep 10_000_000, a tenth of the volume
    assert_eq!(
        sell_shares(&config, &mut pool, &mut holding, 18_999_999, 1, 1, 0),
        Err(SocialFiError::MinimumLiquidityRequired)
    );
    assert_eq!((pool, holding), (pool0, holding0));
    assert!(sell_shares(&config, &mut pool, &mut holding, 19_000_000, 1, 1, 0).is_ok());
}

#[test]
fn sell_counter_errors() {
    let config = open_config();
    let base = fresh_pool();
    // the position claims more shares than the pool has issued
    let mut holding = ShareHolding { amount: 5, ..vacant(2) };
    let mut thin = CreatorPool { supply: 3, holders_count: 1, ..base };
    assert_eq!(
        sell_shares(&config, &mut thin, &mut holding, u64::MAX, 1, 4, 0),
        Err(SocialFiError::ArithmeticUnderflow)
    );
    assert_eq!(
        sell_shares(&config, &mut thin, &mut holding, u64::MAX, 1, 5, 0),
        Err(SocialFiError::ArithmeticUnderflow)
    );
    let mut over = CreatorPool { supply: MAX_SUPPLY + 1, holders_count: 1, ..base };
    assert_eq!(
        sell_shares(&config, &mut over, &mut holding, u64::MAX, 1, 1, 0),
        Err(SocialFiError::SupplyTooHigh)
    );
    let mut busy = CreatorPool { supply: 5, holders_count: 1, total_volume: u64::MAX, ..base };
    assert_eq!(
        sell_shares(&config, &mut busy, &mut holding, u64::MAX, 1, 1, 0),
        Err(SocialFiError::ArithmeticOverflow)
    );
    let mut uncounted = CreatorPool { supply: 5, holders_count: 0, ..base };
    assert_eq!(
        sell_shares(&config, &mut uncounted, &mut holding, u64::MAX, 1, 5, 0),
        Err(SocialFiError::ArithmeticUnderflow)
    );
    assert_eq!(holding.amount, 5);
    let mut top = CreatorPool { supply: MAX_SUPPLY, holders_count: 1, ..base };
    let mut whale = ShareHolding { amount: 100, ..vacant(2) };
    assert_eq!(
        sell_shares(&config, &mut top, &mut whale, u64::MAX, 1, 19, 0),
        Err(SocialFiError::ArithmeticOverflow)
    );
}

#[test]
fn reserve_keeps_a_tenth_of_volume_after_each_sale() {
    let config = open_config();
    let mut market = ShareMarket::open(&config, addr(1), 0, 1).unwrap();
    for trader in 2u8..6 {
        market.buy(&config, addr(trader), 0, 10, 60, u64::MAX).unwrap();
    }
    let mut sales = 0;
    for round in 0..40 {
        let seller = addr(2 + (round % 4) as u8);
        let volume_before = market.pool().total_volume;
        let reserve_before = market.reserve_balance();
        match market.sell(&config, seller, 20, 7, 0) {
            Ok(sold) => {
                sales += 1;
                assert_eq!(market.reserve_balance(), reserve_before - sold.total_received);
                assert!(market.reserve_balance() >= volume_before / 10);
            }
            Err(e) => {
                assert!(
                    e == SocialFiError::MinimumLiquidityRequired
                        || e == SocialFiError::InsufficientShares
                        || e == SocialFiError::InsufficientLiquidity
                );
                assert_eq!(market.reserve_balance(), reserve_before);
                assert_eq!(market.pool().total_volume, volume_before);
            }
        }
    }
    assert!(sales > 0);
}

#[test]
fn holders_count_tracks_nonzero_positions() {
    let config = open_config();
    let mut market = ShareMarket::open(&config, addr(1), 0, 1).unwrap();
    assert_eq!(market.count_holders(), 0);
    market.buy(&config, addr(2), 0, 10, 3, u64::MAX).unwrap();
    market.buy(&config, addr(3), 0, 11, 2, u64::MAX).unwrap();
    market.buy(&config, addr(2), 0, 12, 1, u64::MAX).unwrap();
    assert_eq!(market.pool().holders_count, 2);
    assert_eq!(market.count_holders(), 2);
    assert_eq!(market.positions_len(), 2);
    assert_eq!(market.position_of(addr(2)).amount, 4);
    assert_eq!(market.position_of(addr(3)).amount, 2);
    assert_eq!(market.position_of(addr(9)).amount, 0);
    // a partial sale keeps the holder, a full exit drops it once
    market.sell(&config, addr(2), 13, 1, 0).unwrap();
    assert_eq!(market.pool().holders_count, 2);
    market.sell(&config, addr(3), 14, 2, 0).unwrap();
    assert_eq!(market.pool().holders_count, 1);
    assert_eq!(market.count_holders(), 1);
    assert_eq!(market.positions_len(), 2);
    // a rejected order changes no count
    assert_eq!(market.sell(&config, addr(3), 15, 1, 0), Err(SocialFiError::InsufficientShares));
    assert_eq!(market.sell(&config, addr(9), 15, 1, 0), Err(SocialFiError::InsufficientShares));
    assert_eq!(market.pool().holders_count, 1);
    assert_eq!(market.positions_len(), 2);
    // coming back counts again
    market.buy(&config, addr(3), 0, 16, 1, u64::MAX).unwrap();
    assert_eq!(market.pool().holders_count, 2);
    assert_eq!(market.count_holders(), 2);
    assert_eq!(market.pool().supply, 4);
}

#[test]
fn market_buy_fills_reserve_and_sell_drains_it() {
    let config = open_config();
    let mut market = ShareMarket::open(&config, addr(1), 0, 1).unwrap();
    let bought = market.buy(&config, addr(2), 5, 10, 10, 10_000_000).unwrap();
    assert_eq!(bought.total_cost, 100_000_000);
    assert_eq!(market.reserve_balance(), 100_000_000);
    assert_eq!(market.pool().total_volume, 100_000_000);
    let sold = market.sell(&config, addr(2), 11, 4, 9_000_000).unwrap();
    assert_eq!(sold.total_received, 36_000_000);
    assert_eq!(sold.fee, 4_000_000);
    assert_eq!(market.reserve_balance(), 64_000_000);
    assert_eq!(market.pool().total_volume, 140_000_000);
    assert_eq!(market.pool().supply, 6);
    assert_eq!(
        market.buy(&paused_config(), addr(2), 5, 12, 1, u64::MAX),
        Err(SocialFiError::ContractPaused)
    );
    assert_eq!(
        ShareMarket::open(&paused_config(), addr(1), 0, 1).err(),
        Some(SocialFiError::ContractPaused)
    );
}
