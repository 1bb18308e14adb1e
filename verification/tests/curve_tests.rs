use social_fi_contract::address::Address;
use social_fi_contract::constants::{BASE_PRICE, MAX_PRICE, MAX_SUPPLY};
use social_fi_contract::errors::SocialFiError;
use social_fi_contract::state::CreatorPool;

fn key(n: u8) -> Address {
    Address::new([n; 32])
}

fn pool_at(supply: u64, base_price: u64) -> CreatorPool {
    CreatorPool {
        creator: key(1),
        supply,
        holders_count: 0,
        base_price,
        total_volume: 0,
        created_at: 0,
        bump: 255,
    }
}

#[test]
fn price_of_first_share_is_base_price() {
    let pool = pool_at(0, 10_000_000);
    assert_eq!(pool.calculate_price(1), Ok(10_000_000));
    assert_eq!(pool.calculate_buy_cost(1), Ok(10_000_000));
}

#[test]
fn price_steps_at_multiples_of_scale() {
    let pool = pool_at(0, 10_000_000);
    assert_eq!(pool.calculate_price(0), Ok(10_000_000));
    assert_eq!(pool.calculate_price(99), Ok(10_000_000));
    assert_eq!(pool.calculate_price(100), Ok(10_000_000));
    assert_eq!(pool.calculate_price(199), Ok(10_000_000));
    assert_eq!(pool.calculate_price(200), Ok(40_000_000));
    assert_eq!(pool.calculate_price(299), Ok(40_000_000));
    assert_eq!(pool.calculate_price(300), Ok(90_000_000));
    assert_eq!(pool.calculate_price(1_000_000), Ok(1_000_000_000_000_000));
}

#[test]
fn price_floor_holds_for_every_step() {
    let pool = pool_at(0, BASE_PRICE);
    let mut supply: u64 = 0;
    while supply <= MAX_SUPPLY {
        let price = pool.calculate_price(supply).unwrap();
        assert!(price >= BASE_PRICE);
        supply += 50;
    }
}

#[test]
fn price_is_capped_then_floored() {
    // base * 100^2 exceeds the cap, the cap exceeds the base
    let pool = pool_at(0, 10_000_000_000_000);
    assert_eq!(pool.calculate_price(10_000), Ok(MAX_PRICE));
    // a base above the cap is its own price everywhere
    let steep = pool_at(0, MAX_PRICE + 5);
    assert_eq!(steep.calculate_price(0), Ok(MAX_PRICE + 5));
    assert_eq!(steep.calculate_price(1_000_000), Ok(MAX_PRICE + 5));
    let zero = pool_at(0, 0);
    assert_eq!(zero.calculate_price(500), Ok(0));
}

#[test]
fn price_rejects_supply_above_ceiling() {
    let pool = pool_at(0, BASE_PRICE);
    assert_eq!(pool.calculate_price(MAX_SUPPLY), Ok(1_000_000_000_000_000));
    assert_eq!(pool.calculate_price(MAX_SUPPLY + 1), Err(SocialFiError::SupplyTooHigh));
    assert_eq!(pool.calculate_price(u64::MAX), Err(SocialFiError::SupplyTooHigh));
}

#[test]
fn buy_cost_walks_the_curve_upward() {
    let pool = pool_at(0, 10_000_000);
    assert_eq!(pool.calculate_buy_cost(0), Ok(0));
    assert_eq!(pool.calculate_buy_cost(100), Ok(1_000_000_000));
    assert_eq!(pool.calculate_buy_cost(250), Ok(4_030_000_000));
    assert_eq!(pool_at(100, 10_000_000).calculate_buy_cost(100), Ok(1_030_000_000));
    assert_eq!(pool_at(200, 10_000_000).calculate_buy_cost(50), Ok(2_000_000_000));
}

#[test]
fn buy_cost_is_exactly_additive() {
    let base: u64 = 10_000_000;
    for (supply, a, b) in [(0u64, 1u64, 1u64), (180, 30, 40), (95, 10, 100), (999_800, 100, 100)] {
        let first = pool_at(supply, base).calculate_buy_cost(a).unwrap();
        let second = pool_at(supply + a, base).calculate_buy_cost(b).unwrap();
        let both = pool_at(supply, base).calculate_buy_cost(a + b).unwrap();
        assert_eq!(first + second, both);
    }
}

#[test]
fn buy_cost_errors() {
    assert_eq!(
        pool_at(u64::MAX, BASE_PRICE).calculate_buy_cost(1),
        Err(SocialFiError::ArithmeticOverflow)
    );
    assert_eq!(
        pool_at(MAX_SUPPLY, BASE_PRICE).calculate_buy_cost(1),
        Err(SocialFiError::SupplyTooHigh)
    );
    assert_eq!(pool_at(MAX_SUPPLY, BASE_PRICE).calculate_buy_cost(0), Ok(0));
    assert_eq!(
        pool_at(MAX_SUPPLY - 1, BASE_PRICE).calculate_buy_cost(1),
        Ok(1_000_000_000_000_000)
    );
    // two shares at a base price of u64::MAX do not fit in 64 bits
    assert_eq!(pool_at(0, u64::MAX).calculate_buy_cost(1), Ok(u64::MAX));
    assert_eq!(pool_at(0, u64::MAX).calculate_buy_cost(2), Err(SocialFiError::PriceTooHigh));
}

#[test]
fn sell_proceeds_walk_the_curve_downward() {
    let pool = pool_at(250, 10_000_000);
    assert_eq!(pool.calculate_sell_proceeds(0), Ok(0));
    assert_eq!(pool.calculate_sell_proceeds(1), Ok(40_000_000));
    assert_eq!(pool.calculate_sell_proceeds(50), Ok(2_000_000_000));
    assert_eq!(pool.calculate_sell_proceeds(51), Ok(2_040_000_000));
    assert_eq!(pool.calculate_sell_proceeds(52), Ok(2_050_000_000));
    assert_eq!(pool.calculate_sell_proceeds(250), Ok(4_030_000_000));
}

#[test]
fn sell_return_is_proceeds_less_ten_percent() {
    let pool = pool_at(250, 10_000_000);
    assert_eq!(pool.calculate_sell_return(0), Ok(0));
    assert_eq!(pool.calculate_sell_return(1), Ok(36_000_000));
    assert_eq!(pool.calculate_sell_return(250), Ok(3_627_000_000));
    // the fee is rounded down, so the seller keeps the odd unit
    assert_eq!(pool_at(5, 19).calculate_sell_return(1), Ok(18));
    assert_eq!(pool_at(5, 9).calculate_sell_return(1), Ok(9));
}

#[test]
fn sell_errors() {
    assert_eq!(
        pool_at(MAX_SUPPLY + 1, BASE_PRICE).calculate_sell_return(1),
        Err(SocialFiError::SupplyTooHigh)
    );
    assert_eq!(pool_at(MAX_SUPPLY + 1, BASE_PRICE).calculate_sell_return(0), Ok(0));
    assert_eq!(
        pool_at(3, BASE_PRICE).calculate_sell_return(5),
        Err(SocialFiError::ArithmeticUnderflow)
    );
    // one share more than the supply still prices supply zero
    assert_eq!(pool_at(3, BASE_PRICE).calculate_sell_proceeds(4), Ok(40_000_000));
    // at the top of the curve the fee on a large sale leaves 64 bits
    assert_eq!(
        pool_at(MAX_SUPPLY, BASE_PRICE).calculate_sell_return(100),
        Err(SocialFiError::ArithmeticOverflow)
    );
    assert_eq!(
        pool_at(MAX_SUPPLY, BASE_PRICE).calculate_sell_proceeds(18),
        Ok(17_996_600_170_000_000)
    );
    assert_eq!(
        pool_at(MAX_SUPPLY, BASE_PRICE).calculate_sell_proceeds(19),
        Err(SocialFiError::ArithmeticOverflow)
    );
}

#[test]
fn sell_then_buy_back_never_gains() {
    let base: u64 = 10_000_000;
    for (supply, amount) in [(1u64, 1u64), (250, 100), (100, 100), (5_000, 37), (1_000, 1)] {
        let paid_out = pool_at(supply, base).calculate_sell_return(amount).unwrap();
        let proceeds = pool_at(supply, base).calculate_sell_proceeds(amount).unwrap();
        let buy_back = pool_at(supply - amount, base).calculate_buy_cost(amount).unwrap();
        assert_eq!(proceeds, buy_back);
        assert!(paid_out < buy_back);
        let same_supply = pool_at(supply, base).calculate_buy_cost(amount).unwrap();
        assert!(paid_out < same_supply);
    }
}

#[test]
fn sell_then_buy_back_breaks_even_only_without_fee() {
    // proceeds below ten units carry no fee
    let pool = pool_at(1, 9);
    assert_eq!(pool.calculate_sell_return(1), Ok(9));
    assert_eq!(pool_at(0, 9).calculate_buy_cost(1), Ok(9));
}

#[test]
fn error_messages() {
    assert_eq!(SocialFiError::SupplyTooHigh.message(), "Supply exceeds maximum limit");
    assert_eq!(SocialFiError::AlreadyVoted.message(), "Already voted on this proposal");
    assert_eq!(SocialFiError::InvalidAmount.message(), "Amount must be greater than zero");
    assert_eq!(SocialFiError::InsufficientLiquidity.message(), "Insufficient liquidity in pool");
}
