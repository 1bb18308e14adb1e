//! The share market of one creator as a whole: the pool, every holder's
//! position, and the liquidity reserve, kept consistent across orders.

use vstd::prelude::*;
use crate::address::Address;
use crate::constants::MIN_LIQUIDITY_DIVISOR;
use crate::curve::sell_payout;
use crate::errors::SocialFiError;
use crate::events::{SharesPurchased, SharesSold};
use crate::instructions::shares::{
    buy_receipt, buy_rejection, buy_shares, holding_after_buy, holding_after_sell,
    initialize_creator_pool, opened_pool, pool_after_buy, pool_after_sell, sell_receipt, sell_rejection,
    sell_shares,
};
use crate::state::{CreatorPool, PlatformConfig, ShareHolding};

verus! {

/// Number of positions that hold at least one share.
pub open spec fn count_holders(positions: Seq<ShareHolding>) -> nat
    decreases positions.len(),
{
    if positions.len() == 0 {
        0
    } else {
        count_holders(positions.drop_last()) + if positions.last().amount > 0 {
            1nat
        } else {
            0nat
        }
    }
}

/// Number of shares held over all positions.
pub open spec fn total_held(positions: Seq<ShareHolding>) -> nat
    decreases positions.len(),
{
    if positions.len() == 0 {
        0
    } else {
        total_held(positions.drop_last()) + positions.last().amount as nat
    }
}

/// Whether `holder` has a position among `positions`.
pub open spec fn has_position(positions: Seq<ShareHolding>, holder: Address) -> bool {
    exists|i: int| 0 <= i < positions.len() && #[trigger] positions[i].holder == holder
}

/// Where the position of `holder` stands among `positions`.
pub open spec fn position_index(positions: Seq<ShareHolding>, holder: Address) -> int {
    choose|i: int| 0 <= i < positions.len() && #[trigger] positions[i].holder == holder
}

/// A position that was never used.
pub open spec fn vacant_position(holder: Address, creator: Address) -> ShareHolding {
    ShareHolding { holder, creator, amount: 0, average_price: 0, created_at: 0, bump: 0 }
}

/// The mathematical content of a market.
pub struct MarketView {
    pub pool: CreatorPool,
    pub positions: Seq<ShareHolding>,
    pub reserve: u64,
}

impl MarketView {
    /// A market is consistent when no holder has two positions, every
    /// position belongs to the pool's creator, the pool's holder count is
    /// the number of positions that hold shares, the pool's supply is the
    /// number of shares held, and the supply is within the ceiling.
    pub open spec fn valid(self) -> bool {
        &&& self.pool.wf()
        &&& forall|i: int, j: int|
            0 <= i < j < self.positions.len() ==> #[trigger] self.positions[i].holder
                != #[trigger] self.positions[j].holder
        &&& forall|i: int|
            0 <= i < self.positions.len() ==> (#[trigger] self.positions[i]).creator
                == self.pool.creator
        &&& self.pool.holders_count == count_holders(self.positions)
        &&& self.pool.supply == total_held(self.positions)
    }

    /// The position of `holder`, vacant if the holder never bought.
    pub open spec fn position_of(self, holder: Address) -> ShareHolding {
        if has_position(self.positions, holder) {
            self.positions[position_index(self.positions, holder)]
        } else {
            vacant_position(holder, self.pool.creator)
        }
    }

    /// The positions once `holder`'s has become `position`.
    pub open spec fn with_position(self, holder: Address, position: ShareHolding) -> Seq<
        ShareHolding,
    > {
        if has_position(self.positions, holder) {
            self.positions.update(position_index(self.positions, holder), position)
        } else {
            self.positions.push(position)
        }
    }

    /// Why a buy order on this market is rejected, if it is: for the reasons
    /// of `buy_rejection`, or because the reserve cannot take the payment.
    pub open spec fn buy_rejection(
        self,
        config: PlatformConfig,
        buyer: Address,
        amount: u64,
        max_price_per_share: u64,
    ) -> Option<SocialFiError> {
        match buy_rejection(
            config,
            self.pool,
            self.position_of(buyer),
            amount,
            max_price_per_share,
        ) {
            Some(e) => Some(e),
            None => if self.reserve + self.pool.buy_cost_outcome(amount)->Ok_0 > u64::MAX {
                Some(SocialFiError::ArithmeticOverflow)
            } else {
                None
            },
        }
    }

    /// The market after a buy order: unchanged if the order is rejected.
    pub open spec fn after_buy(
        self,
        config: PlatformConfig,
        buyer: Address,
        holding_bump: u8,
        now: i64,
        amount: u64,
        max_price_per_share: u64,
    ) -> MarketView {
        if self.buy_rejection(config, buyer, amount, max_price_per_share) is Some {
            self
        } else {
            let total_cost = self.pool.buy_cost_outcome(amount)->Ok_0;
            MarketView {
                pool: pool_after_buy(self.pool, self.position_of(buyer), amount, total_cost),
                positions: self.with_position(
                    buyer,
                    holding_after_buy(
                        self.pool,
                        self.position_of(buyer),
                        buyer,
                        holding_bump,
                        now,
                        amount,
                        total_cost,
                    ),
                ),
                reserve: (self.reserve + total_cost) as u64,
            }
        }
    }

    /// Why a sell order on this market is rejected, if it is.
    pub open spec fn sell_rejection(
        self,
        config: PlatformConfig,
        seller: Address,
        amount: u64,
        min_price_per_share: u64,
    ) -> Option<SocialFiError> {
        sell_rejection(
            config,
            self.pool,
            self.position_of(seller),
            self.reserve,
            amount,
            min_price_per_share,
        )
    }

    /// The market after a sell order: unchanged if the order is rejected.
    pub open spec fn after_sell(
        self,
        config: PlatformConfig,
        seller: Address,
        amount: u64,
        min_price_per_share: u64,
    ) -> MarketView {
        if self.sell_rejection(config, seller, amount, min_price_per_share) is Some {
            self
        } else {
            let proceeds = self.pool.sell_proceeds_outcome(amount)->Ok_0;
            MarketView {
                pool: pool_after_sell(self.pool, self.position_of(seller), amount, proceeds),
                positions: self.with_position(
                    seller,
                    holding_after_sell(self.position_of(seller), amount),
                ),
                reserve: (self.reserve - sell_payout(proceeds as int)) as u64,
            }
        }
    }
}

proof fn lemma_count_push(positions: Seq<ShareHolding>, position: ShareHolding)
    ensures
        count_holders(positions.push(position)) == count_holders(positions) + if position.amount
            > 0 {
            1nat
        } else {
            0nat
        },
        total_held(positions.push(position)) == total_held(positions) + position.amount,
{
    assert(positions.push(position).drop_last() =~= positions);
}

proof fn lemma_count_update(positions: Seq<ShareHolding>, i: int, position: ShareHolding)
    requires
        0 <= i < positions.len(),
    ensures
        count_holders(positions.update(i, position)) + (if positions[i].amount > 0 {
            1nat
        } else {
            0nat
        }) == count_holders(positions) + if position.amount > 0 {
            1nat
        } else {
            0nat
        },
        total_held(positions.update(i, position)) + positions[i].amount == total_held(positions)
            + position.amount,
    decreases positions.len(),
{
    if i == positions.len() - 1 {
        assert(positions.update(i, position).drop_last() =~= positions.drop_last());
    } else {
        lemma_count_update(positions.drop_last(), i, position);
        assert(positions.update(i, position).drop_last() =~= positions.drop_last().update(
            i,
            position,
        ));
    }
}

/// Replacing the position of a holder, or adding the first position of a
/// new holder, keeps holders distinct as long as the holder stays the same.
proof fn lemma_with_position(market: MarketView, holder: Address, position: ShareHolding)
    requires
        market.valid(),
        position.holder == holder,
        position.creator == market.pool.creator,
    ensures
        forall|i: int, j: int|
            0 <= i < j < market.with_position(holder, position).len() ==> (
            #[trigger] market.with_position(holder, position)[i]).holder != (
            #[trigger] market.with_position(holder, position)[j]).holder,
        forall|i: int|
            0 <= i < market.with_position(holder, position).len() ==> (
            #[trigger] market.with_position(holder, position)[i]).creator == market.pool.creator,
        count_holders(market.with_position(holder, position)) + (if market.position_of(
            holder,
        ).amount > 0 {
            1nat
        } else {
            0nat
        }) == count_holders(market.positions) + if position.amount > 0 {
            1nat
        } else {
            0nat
        },
        total_held(market.with_position(holder, position)) + market.position_of(holder).amount
            == total_held(market.positions) + position.amount,
{
    if has_position(market.positions, holder) {
        lemma_count_update(market.positions, position_index(market.positions, holder), position);
    } else {
        lemma_count_push(market.positions, position);
    }
}

/// A buy order, settled or rejected, leaves a consistent market consistent.
/// In particular the pool's holder count is still the number of positions
/// that hold shares.
pub proof fn law_buy_keeps_market_valid(
    market: MarketView,
    config: PlatformConfig,
    buyer: Address,
    holding_bump: u8,
    now: i64,
    amount: u64,
    max_price_per_share: u64,
)
    requires
        market.valid(),
    ensures
        market.after_buy(config, buyer, holding_bump, now, amount, max_price_per_share).valid(),
{
    if market.buy_rejection(config, buyer, amount, max_price_per_share) is None {
        let total_cost = market.pool.buy_cost_outcome(amount)->Ok_0;
        let position = holding_after_buy(
            market.pool,
            market.position_of(buyer),
            buyer,
            holding_bump,
            now,
            amount,
            total_cost,
        );
        lemma_with_position(market, buyer, position);
    }
}

/// A sell order, settled or rejected, leaves a consistent market consistent.
/// In particular the pool's holder count is still the number of positions
/// that hold shares.
pub proof fn law_sell_keeps_market_valid(
    market: MarketView,
    config: PlatformConfig,
    seller: Address,
    amount: u64,
    min_price_per_share: u64,
)
    requires
        market.valid(),
    ensures
        market.after_sell(config, seller, amount, min_price_per_share).valid(),
{
    if market.sell_rejection(config, seller, amount, min_price_per_share) is None {
        let position = holding_after_sell(market.position_of(seller), amount);
        lemma_with_position(market, seller, position);
    }
}

/// After a settled sale the reserve holds at least a tenth of the volume
/// the pool had when the order came in; it is never overdrawn.
pub proof fn law_sell_keeps_reserve(
    market: MarketView,
    config: PlatformConfig,
    seller: Address,
    amount: u64,
    min_price_per_share: u64,
)
    requires
        market.sell_rejection(config, seller, amount, min_price_per_share) is None,
    ensures
        market.pool.sell_proceeds_outcome(amount) matches Ok(proceeds) && sell_payout(
            proceeds as int,
        ) <= market.reserve && market.after_sell(
            config,
            seller,
            amount,
            min_price_per_share,
        ).reserve == market.reserve - sell_payout(proceeds as int),
        market.after_sell(config, seller, amount, min_price_per_share).reserve
            >= market.pool.total_volume / MIN_LIQUIDITY_DIVISOR,
{
}

/// The share market of one creator: its pool, the positions of its holders
/// and its liquidity reserve. The records can be read but are changed only
/// by settled orders, so the market stays consistent.
pub struct ShareMarket {
    pool: CreatorPool,
    holdings: Vec<ShareHolding>,
    reserve_balance: u64,
}

impl View for ShareMarket {
    type V = MarketView;

    closed spec fn view(&self) -> MarketView {
        MarketView { pool: self.pool, positions: self.holdings@, reserve: self.reserve_balance }
    }
}

impl ShareMarket {
    /// The market is consistent in the sense of `MarketView::valid`.
    pub open spec fn wf(&self) -> bool {
        self@.valid()
    }

    /// Opens the market of `creator` with an empty reserve and no holders.
    /// Rejected with `ContractPaused` while the platform is paused.
    pub fn open(config: &PlatformConfig, creator: Address, now: i64, bump: u8) -> (r: Result<
        ShareMarket,
        SocialFiError,
    >)
        ensures
            config.paused ==> r is Err && r->Err_0 == SocialFiError::ContractPaused,
            !config.paused ==> r is Ok && r->Ok_0.wf() && r->Ok_0@.positions.len() == 0
                && r->Ok_0@.reserve == 0 && r->Ok_0@.pool == opened_pool(creator, now, bump),
    {
        match initialize_creator_pool(config, creator, now, bump) {
            Ok(pool) => Ok(ShareMarket { pool, holdings: Vec::new(), reserve_balance: 0 }),
            Err(e) => Err(e),
        }
    }

    /// The pool record.
    pub fn pool(&self) -> (p: CreatorPool)
        ensures
            p == self@.pool,
    {
        self.pool
    }

    /// What the liquidity reserve holds.
    pub fn reserve_balance(&self) -> (b: u64)
        ensures
            b == self@.reserve,
    {
        self.reserve_balance
    }

    /// Number of positions on record, empty ones included.
    pub fn positions_len(&self) -> (n: usize)
        ensures
            n == self@.positions.len(),
    {
        self.holdings.len()
    }

    /// Number of positions that hold at least one share, counted record by
    /// record. On a consistent market this is the pool's holder count.
    pub fn count_holders(&self) -> (n: u64)
        ensures
            n == count_holders(self@.positions),
            self.wf() ==> n == self@.pool.holders_count,
    {
        let mut n: u64 = 0;
        let mut i: usize = 0;
        while i < self.holdings.len()
            invariant
                i <= self.holdings@.len(),
                n == count_holders(self.holdings@.take(i as int)),
                n <= i,
            decreases self.holdings@.len() - i,
        {
            proof {
                assert(self.holdings@.take(i + 1).drop_last() =~= self.holdings@.take(i as int));
            }
            if self.holdings[i].amount > 0 {
                n = n + 1;
            }
            i = i + 1;
        }
        proof {
            assert(self.holdings@.take(i as int) =~= self.holdings@);
        }
        n
    }

    /// Where the position of `holder` stands, if there is one.
    fn find(&self, holder: Address) -> (r: Option<usize>)
        ensures
            match r {
                Some(i) => i < self@.positions.len() && self@.positions[i as int].holder == holder,
                None => !has_position(self@.positions, holder),
            },
    {
        let mut i: usize = 0;
        while i < self.holdings.len()
            invariant
                i <= self.holdings@.len(),
                forall|j: int| 0 <= j < i ==> (#[trigger] self.holdings@[j]).holder != holder,
            decreases self.holdings@.len() - i,
        {
            if self.holdings[i].holder == holder {
                return Some(i);
            }
            i = i + 1;
        }
        None
    }

    /// The position of `holder`; a vacant one if the holder never bought.
    pub fn position_of(&self, holder: Address) -> (p: ShareHolding)
        requires
            self.wf(),
        ensures
            p == self@.position_of(holder),
    {
        match self.find(holder) {
            Some(i) => self.holdings[i],
            None => ShareHolding {
                holder,
                creator: self.pool.creator,
                amount: 0,
                average_price: 0,
                created_at: 0,
                bump: 0,
            },
        }
    }

    /// Settles a buy order of `buyer` against this market.
    ///
    /// The buyer's position is opened if need be, the order is decided as
    /// `buy_shares` decides it, and the cost is added to the reserve. On
    /// rejection nothing changes.
    pub fn buy(
        &mut self,
        config: &PlatformConfig,
        buyer: Address,
        holding_bump: u8,
        now: i64,
        amount: u64,
        max_price_per_share: u64,
    ) -> (r: Result<SharesPurchased, SocialFiError>)
        requires
            old(self).wf(),
        ensures
            final(self).wf(),
            final(self)@ == old(self)@.after_buy(
                *config,
                buyer,
                holding_bump,
                now,
                amount,
                max_price_per_share,
            ),
            match old(self)@.buy_rejection(*config, buyer, amount, max_price_per_share) {
                Some(e) => r == Err::<SharesPurchased, SocialFiError>(e),
                None => r == Ok::<SharesPurchased, SocialFiError>(
                    buy_receipt(
                        old(self)@.pool,
                        buyer,
                        now,
                        amount,
                        old(self)@.pool.buy_cost_outcome(amount)->Ok_0,
                    ),
                ),
            },
    {
        proof {
            law_buy_keeps_market_valid(
                self@,
                *config,
                buyer,
                holding_bump,
                now,
                amount,
                max_price_per_share,
            );
        }
        let found: Option<usize> = self.find(buyer);
        let mut pool: CreatorPool = self.pool;
        let mut holding: ShareHolding = self.position_of(buyer);
        let receipt: SharesPurchased = match buy_shares(
            config,
            &mut pool,
            &mut holding,
            buyer,
            holding_bump,
            now,
            amount,
            max_price_per_share,
        ) {
            Ok(receipt) => receipt,
            Err(e) => {
                return Err(e);
            },
        };
        let reserve: u64 = match self.reserve_balance.checked_add(receipt.total_cost) {
            Some(v) => v,
            None => {
                return Err(SocialFiError::ArithmeticOverflow);
            },
        };
        self.pool = pool;
        self.reserve_balance = reserve;
        match found {
            Some(i) => {
                self.holdings.set(i, holding);
            },
            None => {
                self.holdings.push(holding);
            },
        }
        Ok(receipt)
    }

    /// Settles a sell order of `seller` against this market.
    ///
    /// The order is decided as `sell_shares` decides it against the
    /// market's own reserve, and the payout leaves the reserve. A seller
    /// without a position holds nothing to sell. On rejection nothing
    /// changes.
    pub fn sell(
        &mut self,
        config: &PlatformConfig,
        seller: Address,
        now: i64,
        amount: u64,
        min_price_per_share: u64,
    ) -> (r: Result<SharesSold, SocialFiError>)
        requires
            old(self).wf(),
        ensures
            final(self).wf(),
            final(self)@ == old(self)@.after_sell(*config, seller, amount, min_price_per_share),
            match old(self)@.sell_rejection(*config, seller, amount, min_price_per_share) {
                Some(e) => r == Err::<SharesSold, SocialFiError>(e),
                None => r == Ok::<SharesSold, SocialFiError>(
                    sell_receipt(
                        old(self)@.pool,
                        old(self)@.position_of(seller),
                        now,
                        amount,
                        old(self)@.pool.sell_proceeds_outcome(amount)->Ok_0,
                    ),
                ),
            },
            r is Ok ==> final(self)@.reserve >= old(self)@.pool.total_volume
                / MIN_LIQUIDITY_DIVISOR,
    {
        proof {
            law_sell_keeps_market_valid(self@, *config, seller, amount, min_price_per_share);
        }
        let found: Option<usize> = self.find(seller);
        let mut pool: CreatorPool = self.pool;
        let mut holding: ShareHolding = self.position_of(seller);
        let receipt: SharesSold = match sell_shares(
            config,
            &mut pool,
            &mut holding,
            self.reserve_balance,
            now,
            amount,
            min_price_per_share,
        ) {
            Ok(receipt) => receipt,
            Err(e) => {
                return Err(e);
            },
        };
        self.pool = pool;
        self.reserve_balance = self.reserve_balance - receipt.total_received;
        match found {
            Some(i) => {
                self.holdings.set(i, holding);
            },
            None => {
                self.holdings.push(holding);
            },
        }
        Ok(receipt)
    }
}

} // verus!
