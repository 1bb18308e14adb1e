//! The bonding curve as mathematics: the price of a share at a given supply,
//! sums of prices over a range of supplies, the sell fee, and the laws that
//! relate buying and selling.

use vstd::prelude::*;
use crate::constants::{BPS_DENOMINATOR, MAX_PRICE, PRICE_SCALE, SELL_FEE_BPS};

verus! {

/// Price of one share when `supply` shares exist: the base price times the
/// square of the scaled supply, capped at `MAX_PRICE`, and never below the
/// base price.
pub open spec fn curve_price(base_price: int, supply: int) -> int {
    let steps = supply / (PRICE_SCALE as int);
    let raw = base_price * (steps * steps);
    let capped = if raw <= MAX_PRICE {
        raw
    } else {
        MAX_PRICE as int
    };
    if capped >= base_price {
        capped
    } else {
        base_price
    }
}

/// Sum of the prices at every supply `s` with `lo < s <= hi`.
pub open spec fn price_sum(base_price: int, lo: int, hi: int) -> int
    decreases hi - lo,
{
    if hi <= lo {
        0
    } else {
        price_sum(base_price, lo, hi - 1) + curve_price(base_price, hi)
    }
}

/// Cost of buying `amount` shares from a pool that stands at `supply`: each
/// share is priced at the supply it brings the pool to.
pub open spec fn buy_cost(base_price: int, supply: int, amount: int) -> int {
    price_sum(base_price, supply, supply + amount)
}

/// Value, before the fee, of selling `amount` shares into a pool that stands
/// at `supply`: each share is priced at the supply it leaves behind it.
pub open spec fn sell_proceeds(base_price: int, supply: int, amount: int) -> int {
    price_sum(base_price, supply - amount, supply)
}

/// Fee withheld from a sale worth `proceeds`.
pub open spec fn sell_fee(proceeds: int) -> int {
    proceeds * (SELL_FEE_BPS as int) / (BPS_DENOMINATOR as int)
}

/// What the seller receives for a sale worth `proceeds`.
pub open spec fn sell_payout(proceeds: int) -> int {
    proceeds - sell_fee(proceeds)
}

/// The price never falls below the base price, whatever the supply.
pub proof fn lemma_price_floor(base_price: int, supply: int)
    ensures
        curve_price(base_price, supply) >= base_price,
{
}

/// With a base price that fits in 64 bits, so does every price.
pub proof fn lemma_price_bounds(base_price: int, supply: int)
    requires
        0 <= base_price <= u64::MAX,
    ensures
        0 <= curve_price(base_price, supply) <= u64::MAX,
{
}

/// The price does not fall when the supply grows.
pub proof fn lemma_price_monotonic(base_price: int, s1: int, s2: int)
    requires
        0 <= base_price,
        0 <= s1 <= s2,
    ensures
        curve_price(base_price, s1) <= curve_price(base_price, s2),
{
    let k1 = s1 / (PRICE_SCALE as int);
    let k2 = s2 / (PRICE_SCALE as int);
    assert(0 <= k1 <= k2);
    assert(k1 * k1 <= k2 * k2) by (nonlinear_arith)
        requires
            0 <= k1 <= k2,
    ;
    assert(base_price * (k1 * k1) <= base_price * (k2 * k2)) by (nonlinear_arith)
        requires
            0 <= base_price,
            k1 * k1 <= k2 * k2,
    ;
}

/// A sum of prices over a range is bounded by the length of the range.
pub proof fn lemma_price_sum_bounds(base_price: int, lo: int, hi: int)
    requires
        0 <= base_price <= u64::MAX,
        lo <= hi,
    ensures
        0 <= price_sum(base_price, lo, hi) <= (hi - lo) * u64::MAX,
    decreases hi - lo,
{
    if hi > lo {
        lemma_price_sum_bounds(base_price, lo, hi - 1);
        lemma_price_bounds(base_price, hi);
        assert((hi - 1 - lo) * u64::MAX + u64::MAX == (hi - lo) * u64::MAX) by (nonlinear_arith);
    }
}

/// A range of supplies can be priced in two parts.
pub proof fn lemma_price_sum_split(base_price: int, lo: int, mid: int, hi: int)
    requires
        lo <= mid <= hi,
    ensures
        price_sum(base_price, lo, hi) == price_sum(base_price, lo, mid) + price_sum(
            base_price,
            mid,
            hi,
        ),
    decreases hi - mid,
{
    if hi > mid {
        lemma_price_sum_split(base_price, lo, mid, hi - 1);
    }
}

/// Every price in a range is at least the base price, so the sum is at least
/// the base price times the length of the range.
pub proof fn lemma_price_sum_floor(base_price: int, lo: int, hi: int)
    requires
        lo <= hi,
    ensures
        price_sum(base_price, lo, hi) >= (hi - lo) * base_price,
    decreases hi - lo,
{
    if hi > lo {
        lemma_price_sum_floor(base_price, lo, hi - 1);
        assert((hi - 1 - lo) * base_price + base_price == (hi - lo) * base_price)
            by (nonlinear_arith);
    } else {
        assert((hi - lo) * base_price == 0) by (nonlinear_arith)
            requires
                hi == lo,
        ;
    }
}

/// Shifting a range of supplies upward does not lower its sum.
pub proof fn lemma_price_sum_shift(base_price: int, lo: int, hi: int, shift: int)
    requires
        0 <= base_price,
        -1 <= lo <= hi,
        0 <= shift,
    ensures
        price_sum(base_price, lo, hi) <= price_sum(base_price, lo + shift, hi + shift),
    decreases hi - lo,
{
    if hi > lo {
        lemma_price_sum_shift(base_price, lo, hi - 1, shift);
        lemma_price_monotonic(base_price, hi, hi + shift);
    }
}

/// Costs are exactly additive: buying `a` shares and then `b` more, the
/// second order priced at the supply the first one left, costs what buying
/// `a + b` at once costs.
pub proof fn law_buy_cost_additive(base_price: int, supply: int, a: int, b: int)
    requires
        0 <= a,
        0 <= b,
    ensures
        buy_cost(base_price, supply, a) + buy_cost(base_price, supply + a, b) == buy_cost(
            base_price,
            supply,
            a + b,
        ),
{
    lemma_price_sum_split(base_price, supply, supply + a, supply + a + b);
}

/// Selling `amount` shares and buying them back, with no other trade in
/// between, walks the same prices in both directions: the cost of the
/// buy-back equals the proceeds of the sale before the fee. The seller is
/// paid those proceeds less the fee, so the round trip never yields a gain,
/// and it loses money whenever the fee is not zero.
pub proof fn law_sell_then_buy_back(base_price: int, supply: int, amount: int)
    requires
        0 <= base_price,
        0 < amount <= supply,
    ensures
        buy_cost(base_price, supply - amount, amount) == sell_proceeds(base_price, supply, amount),
        sell_payout(sell_proceeds(base_price, supply, amount)) <= buy_cost(
            base_price,
            supply - amount,
            amount,
        ),
        sell_fee(sell_proceeds(base_price, supply, amount)) > 0 ==> sell_payout(
            sell_proceeds(base_price, supply, amount),
        ) < buy_cost(base_price, supply - amount, amount),
{
    lemma_price_sum_floor(base_price, supply - amount, supply);
    assert(amount * base_price >= 0) by (nonlinear_arith)
        requires
            amount >= 0,
            base_price >= 0,
    ;
}

/// At one and the same supply, what a seller is paid for `amount` shares is
/// at most what a buyer pays for `amount` shares, and strictly less whenever
/// the fee is not zero.
pub proof fn law_sell_below_buy(base_price: int, supply: int, amount: int)
    requires
        0 <= base_price,
        0 < amount <= supply,
    ensures
        sell_payout(sell_proceeds(base_price, supply, amount)) <= buy_cost(
            base_price,
            supply,
            amount,
        ),
        sell_fee(sell_proceeds(base_price, supply, amount)) > 0 ==> sell_payout(
            sell_proceeds(base_price, supply, amount),
        ) < buy_cost(base_price, supply, amount),
{
    lemma_price_sum_floor(base_price, supply - amount, supply);
    assert(amount * base_price >= 0) by (nonlinear_arith)
        requires
            amount >= 0,
            base_price >= 0,
    ;
    lemma_price_sum_shift(base_price, supply - amount, supply, amount);
}

/// The fee is not zero as soon as the proceeds reach ten units, which any
/// sale does when the base price is at least ten.
pub proof fn lemma_fee_positive(base_price: int, supply: int, amount: int)
    requires
        10 <= base_price,
        0 < amount <= supply,
    ensures
        sell_fee(sell_proceeds(base_price, supply, amount)) > 0,
{
    lemma_price_sum_floor(base_price, supply - amount, supply);
    assert(amount * base_price >= 10) by (nonlinear_arith)
        requires
            amount >= 1,
            base_price >= 10,
    ;
}

} // verus!
