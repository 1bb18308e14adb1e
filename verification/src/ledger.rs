//! The whole ledger as a keyed store: one market per creator, one stake per
//! staker, one proposal per proposer and title. Every operation looks its
//! records up by key, creates a record only where the key is free, and
//! leaves the store consistent.

use vstd::prelude::*;
use crate::address::Address;
use crate::ballot::{has_voted, BallotView, ProposalBallot};
use crate::errors::SocialFiError;
use crate::events::{
    ProposalCreated, ProposalExecuted, SharesPurchased, SharesSold, TokensStaked, TokensUnstaked,
    VoteCast,
};
use crate::instructions::governance::{
    execution_rejection, opened_event, opened_proposal, proposal_rejection, stake_rejection,
    stake_tokens, staked_event, staked_position, unstake_rejection, unstake_tokens, vote_event,
    vote_record,
};
use crate::instructions::shares::{buy_receipt, opened_pool, sell_receipt};
use crate::market::{MarketView, ShareMarket};
use crate::state::{CreatorPool, PlatformConfig, Proposal, ShareHolding, StakePosition, Vote};

verus! {

/// The mathematical content of a ledger.
pub struct LedgerView {
    pub markets: Seq<MarketView>,
    pub stakes: Seq<StakePosition>,
    pub ballots: Seq<BallotView>,
}

impl LedgerView {
    /// Whether `creator` has a market.
    pub open spec fn has_market(self, creator: Address) -> bool {
        exists|i: int| 0 <= i < self.markets.len() && (#[trigger] self.markets[i]).pool.creator
            == creator
    }

    /// Where the market of `creator` stands.
    pub open spec fn market_index(self, creator: Address) -> int {
        choose|i: int| 0 <= i < self.markets.len() && (#[trigger] self.markets[i]).pool.creator
            == creator
    }

    /// Whether `staker` has an open stake.
    pub open spec fn has_stake(self, staker: Address) -> bool {
        exists|i: int| 0 <= i < self.stakes.len() && (#[trigger] self.stakes[i]).staker == staker
    }

    /// Where the stake of `staker` stands.
    pub open spec fn stake_index(self, staker: Address) -> int {
        choose|i: int| 0 <= i < self.stakes.len() && (#[trigger] self.stakes[i]).staker == staker
    }

    /// Whether a proposal stands under the identity `id`.
    pub open spec fn has_ballot(self, id: Address) -> bool {
        exists|i: int| 0 <= i < self.ballots.len() && (#[trigger] self.ballots[i]).proposal.id == id
    }

    /// Where the proposal with the identity `id` stands.
    pub open spec fn ballot_index(self, id: Address) -> int {
        choose|i: int| 0 <= i < self.ballots.len() && (#[trigger] self.ballots[i]).proposal.id == id
    }

    /// Whether `proposer` has opened a proposal under `title` before.
    pub open spec fn has_title(self, proposer: Address, title: Seq<char>) -> bool {
        exists|i: int|
            0 <= i < self.ballots.len() && (#[trigger] self.ballots[i]).proposal.proposer
                == proposer && self.ballots[i].proposal.title@ == title
    }

    /// A ledger is consistent when every market and every ballot is, no
    /// creator has two markets, no staker has two stakes, no two proposals
    /// share an identity, and no proposer has two proposals under one
    /// title.
    pub open spec fn valid(self) -> bool {
        &&& forall|i: int| 0 <= i < self.markets.len() ==> (#[trigger] self.markets[i]).valid()
        &&& forall|i: int, j: int|
            0 <= i < j < self.markets.len() ==> (#[trigger] self.markets[i]).pool.creator != (
            #[trigger] self.markets[j]).pool.creator
        &&& forall|i: int, j: int|
            0 <= i < j < self.stakes.len() ==> (#[trigger] self.stakes[i]).staker != (
            #[trigger] self.stakes[j]).staker
        &&& forall|i: int| 0 <= i < self.ballots.len() ==> (#[trigger] self.ballots[i]).valid()
        &&& forall|i: int, j: int|
            0 <= i < j < self.ballots.len() ==> (#[trigger] self.ballots[i]).proposal.id != (
            #[trigger] self.ballots[j]).proposal.id
        &&& forall|i: int, j: int|
            0 <= i < j < self.ballots.len() ==> !((#[trigger] self.ballots[i]).proposal.proposer
                == (#[trigger] self.ballots[j]).proposal.proposer
                && self.ballots[i].proposal.title@ == self.ballots[j].proposal.title@)
    }

    // ---------- staking ----------

    /// Why a stake is rejected, if it is: the platform is paused, the
    /// staker has an open stake already, or for the reasons of
    /// `stake_rejection`.
    pub open spec fn stake_rejection(
        self,
        config: PlatformConfig,
        staker: Address,
        amount: u64,
        lock_period: u64,
        now: i64,
    ) -> Option<SocialFiError> {
        if config.paused {
            Some(SocialFiError::ContractPaused)
        } else if self.has_stake(staker) {
            Some(SocialFiError::RecordAlreadyExists)
        } else {
            stake_rejection(config, amount, lock_period, now)
        }
    }

    /// The ledger after a stake: unchanged if the stake is rejected.
    pub open spec fn after_stake(
        self,
        config: PlatformConfig,
        staker: Address,
        amount: u64,
        lock_period: u64,
        now: i64,
        bump: u8,
    ) -> LedgerView {
        if self.stake_rejection(config, staker, amount, lock_period, now) is Some {
            self
        } else {
            LedgerView {
                stakes: self.stakes.push(staked_position(staker, amount, lock_period, now, bump)),
                ..self
            }
        }
    }

    /// Why an unstake is rejected, if it is: the platform is paused, the
    /// staker has no open stake, or for the reasons of `unstake_rejection`.
    pub open spec fn unstake_rejection(
        self,
        config: PlatformConfig,
        staker: Address,
        now: i64,
    ) -> Option<SocialFiError> {
        if config.paused {
            Some(SocialFiError::ContractPaused)
        } else if !self.has_stake(staker) {
            Some(SocialFiError::RecordNotFound)
        } else {
            unstake_rejection(config, self.stakes[self.stake_index(staker)], now)
        }
    }

    /// The ledger after an unstake: the stake is gone, unless the unstake
    /// is rejected.
    pub open spec fn after_unstake(self, config: PlatformConfig, staker: Address, now: i64) ->
        LedgerView {
        if self.unstake_rejection(config, staker, now) is Some {
            self
        } else {
            LedgerView { stakes: self.stakes.remove(self.stake_index(staker)), ..self }
        }
    }

    // ---------- markets ----------

    /// Why a market is not opened, if it is not: the platform is paused,
    /// or the creator has a market already.
    pub open spec fn pool_rejection(self, config: PlatformConfig, creator: Address) -> Option<
        SocialFiError,
    > {
        if config.paused {
            Some(SocialFiError::ContractPaused)
        } else if self.has_market(creator) {
            Some(SocialFiError::RecordAlreadyExists)
        } else {
            None
        }
    }

    /// The ledger after an attempt to open the market of `creator`.
    pub open spec fn after_init_pool(
        self,
        config: PlatformConfig,
        creator: Address,
        now: i64,
        bump: u8,
    ) -> LedgerView {
        if self.pool_rejection(config, creator) is Some {
            self
        } else {
            LedgerView {
                markets: self.markets.push(
                    MarketView {
                        pool: opened_pool(creator, now, bump),
                        positions: Seq::empty(),
                        reserve: 0,
                    },
                ),
                ..self
            }
        }
    }

    /// Why a buy order is rejected, if it is: the platform is paused, the
    /// creator has no market, or for the market's own reasons.
    pub open spec fn buy_rejection(
        self,
        config: PlatformConfig,
        buyer: Address,
        creator: Address,
        amount: u64,
        max_price_per_share: u64,
    ) -> Option<SocialFiError> {
        if config.paused {
            Some(SocialFiError::ContractPaused)
        } else if !self.has_market(creator) {
            Some(SocialFiError::RecordNotFound)
        } else {
            self.markets[self.market_index(creator)].buy_rejection(
                config,
                buyer,
                amount,
                max_price_per_share,
            )
        }
    }

    /// The ledger after a buy order: only the creator's market changes.
    pub open spec fn after_buy(
        self,
        config: PlatformConfig,
        buyer: Address,
        creator: Address,
        holding_bump: u8,
        now: i64,
        amount: u64,
        max_price_per_share: u64,
    ) -> LedgerView {
        if self.buy_rejection(config, buyer, creator, amount, max_price_per_share) is Some {
            self
        } else {
            LedgerView {
                markets: self.markets.update(
                    self.market_index(creator),
                    self.markets[self.market_index(creator)].after_buy(
                        config,
                        buyer,
                        holding_bump,
                        now,
                        amount,
                        max_price_per_share,
                    ),
                ),
                ..self
            }
        }
    }

    /// Why a sell order is rejected, if it is: the platform is paused, the
    /// creator has no market, or for the market's own reasons.
    pub open spec fn sell_rejection(
        self,
        config: PlatformConfig,
        seller: Address,
        creator: Address,
        amount: u64,
        min_price_per_share: u64,
    ) -> Option<SocialFiError> {
        if config.paused {
            Some(SocialFiError::ContractPaused)
        } else if !self.has_market(creator) {
            Some(SocialFiError::RecordNotFound)
        } else {
            self.markets[self.market_index(creator)].sell_rejection(
                config,
                seller,
                amount,
                min_price_per_share,
            )
        }
    }

    /// The ledger after a sell order: only the creator's market changes.
    pub open spec fn after_sell(
        self,
        config: PlatformConfig,
        seller: Address,
        creator: Address,
        amount: u64,
        min_price_per_share: u64,
    ) -> LedgerView {
        if self.sell_rejection(config, seller, creator, amount, min_price_per_share) is Some {
            self
        } else {
            LedgerView {
                markets: self.markets.update(
                    self.market_index(creator),
                    self.markets[self.market_index(creator)].after_sell(
                        config,
                        seller,
                        amount,
                        min_price_per_share,
                    ),
                ),
                ..self
            }
        }
    }

    // ---------- proposals ----------

    /// Why a proposal is not opened, if it is not: the platform is paused;
    /// the identity is taken, or the proposer has a proposal under this
    /// title already; the proposer has no stake and so no voting power; or
    /// for the reasons of `proposal_rejection`.
    pub open spec fn proposal_rejection(
        self,
        config: PlatformConfig,
        proposer: Address,
        id: Address,
        title: Seq<char>,
        description: Seq<char>,
        category: u8,
        execution_delay: i64,
        now: i64,
    ) -> Option<SocialFiError> {
        if config.paused {
            Some(SocialFiError::ContractPaused)
        } else if self.has_ballot(id) || self.has_title(proposer, title) {
            Some(SocialFiError::RecordAlreadyExists)
        } else if !self.has_stake(proposer) {
            Some(SocialFiError::InsufficientVotingPower)
        } else {
            proposal_rejection(
                config,
                self.stakes[self.stake_index(proposer)],
                title,
                description,
                category,
                execution_delay,
                now,
            )
        }
    }

    /// The proposal that `proposer` opens, with the voting power of the
    /// proposer's stake.
    pub open spec fn opened_proposal(
        self,
        proposer: Address,
        id: Address,
        title: String,
        description: String,
        category: u8,
        execution_delay: i64,
        now: i64,
        bump: u8,
    ) -> Proposal {
        opened_proposal(
            self.stakes[self.stake_index(proposer)],
            id,
            title,
            description,
            category,
            execution_delay,
            now,
            bump,
        )
    }

    /// The ledger after an attempt to open a proposal.
    pub open spec fn after_create_proposal(
        self,
        config: PlatformConfig,
        proposer: Address,
        id: Address,
        title: String,
        description: String,
        category: u8,
        execution_delay: i64,
        now: i64,
        bump: u8,
    ) -> LedgerView {
        if self.proposal_rejection(
            config,
            proposer,
            id,
            title@,
            description@,
            category,
            execution_delay,
            now,
        ) is Some {
            self
        } else {
            LedgerView {
                ballots: self.ballots.push(
                    BallotView {
                        proposal: self.opened_proposal(
                            proposer,
                            id,
                            title,
                            description,
                            category,
                            execution_delay,
                            now,
                            bump,
                        ),
                        votes: Seq::empty(),
                    },
                ),
                ..self
            }
        }
    }

    /// Why a vote is rejected, if it is: the platform is paused; no
    /// proposal stands under the identity; the voter has voted on it
    /// before; the voter has no stake and so no voting power; or for the
    /// reasons of `vote_rejection`.
    pub open spec fn vote_rejection(
        self,
        config: PlatformConfig,
        voter: Address,
        id: Address,
        vote_type: u8,
        now: i64,
    ) -> Option<SocialFiError> {
        if config.paused {
            Some(SocialFiError::ContractPaused)
        } else if !self.has_ballot(id) {
            Some(SocialFiError::RecordNotFound)
        } else if has_voted(self.ballots[self.ballot_index(id)].votes, voter) {
            Some(SocialFiError::AlreadyVoted)
        } else if !self.has_stake(voter) {
            Some(SocialFiError::InsufficientVotingPower)
        } else {
            self.ballots[self.ballot_index(id)].cast_rejection(
                config,
                self.stakes[self.stake_index(voter)],
                vote_type,
                now,
            )
        }
    }

    /// The ledger after a vote: only the proposal's ballot changes, and it
    /// takes the voting power the voter's stake has now.
    pub open spec fn after_cast_vote(
        self,
        config: PlatformConfig,
        voter: Address,
        id: Address,
        vote_type: u8,
        now: i64,
        bump: u8,
    ) -> LedgerView {
        if self.vote_rejection(config, voter, id, vote_type, now) is Some {
            self
        } else {
            LedgerView {
                ballots: self.ballots.update(
                    self.ballot_index(id),
                    self.ballots[self.ballot_index(id)].after_cast(
                        config,
                        self.stakes[self.stake_index(voter)],
                        vote_type,
                        now,
                        bump,
                    ),
                ),
                ..self
            }
        }
    }

    /// Why an execution is rejected, if it is: the platform is paused; no
    /// proposal stands under the identity; or for the reasons of
    /// `execution_rejection`.
    pub open spec fn execution_rejection(
        self,
        config: PlatformConfig,
        id: Address,
        now: i64,
    ) -> Option<SocialFiError> {
        if config.paused {
            Some(SocialFiError::ContractPaused)
        } else if !self.has_ballot(id) {
            Some(SocialFiError::RecordNotFound)
        } else {
            execution_rejection(config, self.ballots[self.ballot_index(id)].proposal, now)
        }
    }

    /// The ledger after an attempt to execute a proposal: only the
    /// proposal's ballot changes.
    pub open spec fn after_execute_proposal(self, config: PlatformConfig, id: Address, now: i64) ->
        LedgerView {
        if self.execution_rejection(config, id, now) is Some {
            self
        } else {
            LedgerView {
                ballots: self.ballots.update(
                    self.ballot_index(id),
                    self.ballots[self.ballot_index(id)].after_execute(config, now),
                ),
                ..self
            }
        }
    }
}

/// A staker has one stake at a time: once a stake has been opened, every
/// further stake of the same staker is rejected, whatever its amount and
/// lock period.
pub proof fn law_one_stake_per_staker(
    ledger: LedgerView,
    config: PlatformConfig,
    staker: Address,
    amount: u64,
    lock_period: u64,
    now: i64,
    bump: u8,
    later_config: PlatformConfig,
    later_amount: u64,
    later_lock_period: u64,
    later: i64,
)
    requires
        ledger.stake_rejection(config, staker, amount, lock_period, now) is None,
    ensures
        ledger.after_stake(config, staker, amount, lock_period, now, bump).stake_rejection(
            later_config,
            staker,
            later_amount,
            later_lock_period,
            later,
        ) is Some,
        !later_config.paused ==> ledger.after_stake(
            config,
            staker,
            amount,
            lock_period,
            now,
            bump,
        ).stake_rejection(later_config, staker, later_amount, later_lock_period, later) == Some(
            SocialFiError::RecordAlreadyExists,
        ),
{
    let after = ledger.after_stake(config, staker, amount, lock_period, now, bump);
    assert(after.stakes[after.stakes.len() - 1].staker == staker);
}

/// Closing a stake frees the staker's key: after a settled unstake the
/// staker has no stake, so a new stake is judged on its own merits.
pub proof fn law_unstake_frees_the_key(
    ledger: LedgerView,
    config: PlatformConfig,
    staker: Address,
    now: i64,
)
    requires
        ledger.valid(),
        ledger.unstake_rejection(config, staker, now) is None,
    ensures
        !ledger.after_unstake(config, staker, now).has_stake(staker),
{
    let i = ledger.stake_index(staker);
    let after = ledger.after_unstake(config, staker, now).stakes;
    assert forall|a: int| 0 <= a < after.len() implies (#[trigger] after[a]).staker != staker by {
        let a0 = if a < i {
            a
        } else {
            a + 1
        };
        assert(after[a] == ledger.stakes[a0]);
    }
}

/// Votes keep the power they were cast with: opening or closing a stake
/// changes no ballot, so no tally moves after the fact.
pub proof fn law_stake_changes_keep_tallies(
    ledger: LedgerView,
    config: PlatformConfig,
    staker: Address,
    amount: u64,
    lock_period: u64,
    now: i64,
    bump: u8,
)
    ensures
        ledger.after_stake(config, staker, amount, lock_period, now, bump).ballots
            == ledger.ballots,
        ledger.after_unstake(config, staker, now).ballots == ledger.ballots,
{
}

/// Once a voter's vote on a proposal has been counted, every further vote
/// of the same voter on the same proposal is rejected, whatever its type.
pub proof fn law_one_vote_per_voter(
    ledger: LedgerView,
    config: PlatformConfig,
    voter: Address,
    id: Address,
    vote_type: u8,
    now: i64,
    bump: u8,
    later_config: PlatformConfig,
    later_vote_type: u8,
    later: i64,
)
    requires
        ledger.valid(),
        ledger.vote_rejection(config, voter, id, vote_type, now) is None,
    ensures
        ledger.after_cast_vote(config, voter, id, vote_type, now, bump).vote_rejection(
            later_config,
            voter,
            id,
            later_vote_type,
            later,
        ) is Some,
        !later_config.paused ==> ledger.after_cast_vote(
            config,
            voter,
            id,
            vote_type,
            now,
            bump,
        ).vote_rejection(later_config, voter, id, later_vote_type, later) == Some(
            SocialFiError::AlreadyVoted,
        ),
{
    let i = ledger.ballot_index(id);
    let after = ledger.after_cast_vote(config, voter, id, vote_type, now, bump);
    let stake = ledger.stakes[ledger.stake_index(voter)];
    assert(stake.staker == voter);
    assert(after.ballots[i].proposal.id == id);
    assert(after.has_ballot(id));
    let k = after.ballot_index(id);
    assert(after.ballots[k].proposal.id == id);
    if k != i {
        assert(after.ballots[k] == ledger.ballots[k]);
        assert(ledger.ballots[k].proposal.id == ledger.ballots[i].proposal.id);
        assert(false);
    }
    let votes = after.ballots[i].votes;
    assert(votes[votes.len() - 1].voter == voter);
}

/// The ledger of the platform: markets, stakes and proposals, each under
/// its key.
pub struct Ledger {
    markets: Vec<ShareMarket>,
    stakes: Vec<StakePosition>,
    ballots: Vec<ProposalBallot>,
}

impl View for Ledger {
    type V = LedgerView;

    closed spec fn view(&self) -> LedgerView {
        LedgerView {
            markets: self.markets@.map_values(|m: ShareMarket| m@),
            stakes: self.stakes@,
            ballots: self.ballots@.map_values(|b: ProposalBallot| b@),
        }
    }
}

impl Ledger {
    /// The ledger is consistent in the sense of `LedgerView::valid`.
    pub open spec fn wf(&self) -> bool {
        self@.valid()
    }

    /// A ledger without any record.
    pub fn new() -> (ledger: Ledger)
        ensures
            ledger.wf(),
            ledger@.markets.len() == 0,
            ledger@.stakes.len() == 0,
            ledger@.ballots.len() == 0,
    {
        Ledger { markets: Vec::new(), stakes: Vec::new(), ballots: Vec::new() }
    }

    fn find_stake(&self, staker: Address) -> (r: Option<usize>)
        ensures
            match r {
                Some(i) => i < self@.stakes.len() && self@.stakes[i as int].staker == staker,
                None => !self@.has_stake(staker),
            },
    {
        let mut i: usize = 0;
        while i < self.stakes.len()
            invariant
                i <= self.stakes@.len(),
                forall|j: int| 0 <= j < i ==> (#[trigger] self.stakes@[j]).staker != staker,
            decreases self.stakes@.len() - i,
        {
            if self.stakes[i].staker == staker {
                return Some(i);
            }
            i = i + 1;
        }
        None
    }

    /// The open stake of `staker`, if there is one.
    pub fn stake_of(&self, staker: Address) -> (r: Option<StakePosition>)
        requires
            self.wf(),
        ensures
            r is Some <==> self@.has_stake(staker),
            r matches Some(position) ==> position == self@.stakes[self@.stake_index(staker)],
    {
        match self.find_stake(staker) {
            Some(i) => Some(self.stakes[i]),
            None => None,
        }
    }

    /// Opens the stake of `staker`.
    ///
    /// A staker has one stake at a time: while one is open, another is
    /// rejected with `RecordAlreadyExists`. Otherwise the stake is decided
    /// as `stake_tokens` decides it. On rejection nothing changes.
    pub fn stake(
        &mut self,
        config: &PlatformConfig,
        staker: Address,
        amount: u64,
        lock_period: u64,
        now: i64,
        bump: u8,
    ) -> (r: Result<TokensStaked, SocialFiError>)
        requires
            old(self).wf(),
        ensures
            final(self).wf(),
            final(self)@ == old(self)@.after_stake(*config, staker, amount, lock_period, now, bump),
            match old(self)@.stake_rejection(*config, staker, amount, lock_period, now) {
                Some(e) => r == Err::<TokensStaked, SocialFiError>(e),
                None => r == Ok::<TokensStaked, SocialFiError>(
                    staked_event(staked_position(staker, amount, lock_period, now, bump)),
                ),
            },
            r is Ok ==> final(self)@.has_stake(staker),
    {
        if config.paused {
            return Err(SocialFiError::ContractPaused);
        }
        if self.find_stake(staker).is_some() {
            return Err(SocialFiError::RecordAlreadyExists);
        }
        match stake_tokens(config, staker, amount, lock_period, now, bump) {
            Ok((position, event)) => {
                self.stakes.push(position);
                proof {
                    let before = old(self)@.stakes;
                    let after = self@.stakes;
                    assert(self@.markets =~= old(self)@.markets);
                    assert(self@.ballots =~= old(self)@.ballots);
                    assert(after[after.len() - 1].staker == staker);
                    assert forall|i: int, j: int| 0 <= i < j < after.len() implies (
                    #[trigger] after[i]).staker != (#[trigger] after[j]).staker by {
                        assert(after[i] == before[i]);
                        if j < before.len() {
                            assert(after[j] == before[j]);
                        }
                    }
                }
                Ok(event)
            },
            Err(e) => Err(e),
        }
    }

    /// Closes the stake of `staker`.
    ///
    /// Without an open stake the call is rejected with `RecordNotFound`.
    /// Otherwise it is decided as `unstake_tokens` decides it, and on
    /// success the stake is gone, so that the staker may stake anew. On
    /// rejection nothing changes.
    pub fn unstake(&mut self, config: &PlatformConfig, staker: Address, now: i64) -> (r: Result<
        TokensUnstaked,
        SocialFiError,
    >)
        requires
            old(self).wf(),
        ensures
            final(self).wf(),
            final(self)@ == old(self)@.after_unstake(*config, staker, now),
            match old(self)@.unstake_rejection(*config, staker, now) {
                Some(e) => r == Err::<TokensUnstaked, SocialFiError>(e),
                None => r == Ok::<TokensUnstaked, SocialFiError>(
                    (TokensUnstaked {
                        staker,
                        amount: old(self)@.stakes[old(self)@.stake_index(staker)].amount,
                        rewards: old(self)@.stakes[old(self)@.stake_index(staker)].accrued_rewards(
                            now,
                        ) as u64,
                        timestamp: now,
                    }),
                ),
            },
            r is Ok ==> !final(self)@.has_stake(staker),
    {
        if config.paused {
            return Err(SocialFiError::ContractPaused);
        }
        let i: usize = match self.find_stake(staker) {
            Some(i) => i,
            None => {
                return Err(SocialFiError::RecordNotFound);
            },
        };
        match unstake_tokens(config, &self.stakes[i], now) {
            Ok(receipt) => {
                self.stakes.remove(i);
                proof {
                    let before = old(self)@.stakes;
                    let after = self@.stakes;
                    assert(self@.markets =~= old(self)@.markets);
                    assert(self@.ballots =~= old(self)@.ballots);
                    assert forall|a: int, b: int| 0 <= a < b < after.len() implies (
                    #[trigger] after[a]).staker != (#[trigger] after[b]).staker by {
                        let a0 = if a < i { a } else { a + 1 };
                        let b0 = if b < i { b } else { b + 1 };
                        assert(after[a] == before[a0]);
                        assert(after[b] == before[b0]);
                    }
                    assert forall|a: int| 0 <= a < after.len() implies (
                    #[trigger] after[a]).staker != staker by {
                        let a0 = if a < i { a } else { a + 1 };
                        assert(after[a] == before[a0]);
                    }
                }
                Ok(receipt)
            },
            Err(e) => Err(e),
        }
    }

    fn find_market(&self, creator: Address) -> (r: Option<usize>)
        ensures
            match r {
                Some(i) => i < self@.markets.len() && self@.markets[i as int].pool.creator
                    == creator,
                None => !self@.has_market(creator),
            },
    {
        let mut i: usize = 0;
        while i < self.markets.len()
            invariant
                i <= self.markets@.len(),
                self@.markets.len() == self.markets@.len(),
                forall|j: int| 0 <= j < i ==> (#[trigger] self@.markets[j]).pool.creator != creator,
            decreases self.markets@.len() - i,
        {
            if self.markets[i].pool().creator == creator {
                return Some(i);
            }
            i = i + 1;
        }
        None
    }

    /// The pool of `creator`, if the creator has a market.
    pub fn pool_of(&self, creator: Address) -> (r: Option<CreatorPool>)
        requires
            self.wf(),
        ensures
            r is Some <==> self@.has_market(creator),
            r matches Some(pool) ==> pool == self@.markets[self@.market_index(creator)].pool,
    {
        match self.find_market(creator) {
            Some(i) => Some(self.markets[i].pool()),
            None => None,
        }
    }

    /// What the liquidity reserve of `creator`'s market holds, if the
    /// creator has a market.
    pub fn reserve_of(&self, creator: Address) -> (r: Option<u64>)
        requires
            self.wf(),
        ensures
            r is Some <==> self@.has_market(creator),
            r matches Some(balance) ==> balance == self@.markets[self@.market_index(
                creator,
            )].reserve,
    {
        match self.find_market(creator) {
            Some(i) => Some(self.markets[i].reserve_balance()),
            None => None,
        }
    }

    /// The position of `holder` on the market of `creator`, if the creator
    /// has a market; vacant if the holder never bought.
    pub fn position_of(&self, creator: Address, holder: Address) -> (r: Option<ShareHolding>)
        requires
            self.wf(),
        ensures
            r is Some <==> self@.has_market(creator),
            r matches Some(position) ==> position == self@.markets[self@.market_index(
                creator,
            )].position_of(holder),
    {
        match self.find_market(creator) {
            Some(i) => {
                proof {
                    assert(self@.markets[i as int].valid());
                }
                Some(self.markets[i].position_of(holder))
            },
            None => None,
        }
    }

    /// Opens the market of `creator`.
    ///
    /// A creator has one market: a second one is rejected with
    /// `RecordAlreadyExists`. On rejection nothing changes.
    pub fn init_pool(&mut self, config: &PlatformConfig, creator: Address, now: i64, bump: u8) -> (r:
        Result<(), SocialFiError>)
        requires
            old(self).wf(),
        ensures
            final(self).wf(),
            final(self)@ == old(self)@.after_init_pool(*config, creator, now, bump),
            match old(self)@.pool_rejection(*config, creator) {
                Some(e) => r == Err::<(), SocialFiError>(e),
                None => r == Ok::<(), SocialFiError>(()),
            },
            r is Ok ==> final(self)@.has_market(creator),
    {
        if config.paused {
            return Err(SocialFiError::ContractPaused);
        }
        if self.find_market(creator).is_some() {
            return Err(SocialFiError::RecordAlreadyExists);
        }
        match ShareMarket::open(config, creator, now, bump) {
            Ok(market) => {
                proof {
                    assert(market@.positions =~= Seq::<ShareHolding>::empty());
                }
                self.markets.push(market);
                proof {
                    let before = old(self)@.markets;
                    let after = self@.markets;
                    assert(self@.stakes =~= old(self)@.stakes);
                    assert(self@.ballots =~= old(self)@.ballots);
                    assert(after =~= before.push(market@));
                    assert(after[after.len() - 1].pool.creator == creator);
                    assert forall|i: int| 0 <= i < after.len() implies (
                    #[trigger] after[i]).valid() by {
                        if i < before.len() {
                            assert(after[i] == before[i]);
                        }
                    }
                    assert forall|i: int, j: int| 0 <= i < j < after.len() implies (
                    #[trigger] after[i]).pool.creator != (#[trigger] after[j]).pool.creator by {
                        assert(after[i] == before[i]);
                        if j < before.len() {
                            assert(after[j] == before[j]);
                        }
                    }
                }
                Ok(())
            },
            Err(e) => Err(e),
        }
    }

    /// Settles a buy order of `buyer` on the market of `creator`.
    ///
    /// Without such a market the order is rejected with `RecordNotFound`.
    /// Otherwise the market settles it, and no other record changes.
    pub fn buy_shares(
        &mut self,
        config: &PlatformConfig,
        buyer: Address,
        creator: Address,
        holding_bump: u8,
        now: i64,
        amount: u64,
        max_price_per_share: u64,
    ) -> (r: Result<SharesPurchased, SocialFiError>)
        requires
            old(self).wf(),
        ensures
            final(self).wf(),
            final(self)@ == old(self)@.after_buy(
                *config,
                buyer,
                creator,
                holding_bump,
                now,
                amount,
                max_price_per_share,
            ),
            match old(self)@.buy_rejection(*config, buyer, creator, amount, max_price_per_share) {
                Some(e) => r == Err::<SharesPurchased, SocialFiError>(e),
                None => r == Ok::<SharesPurchased, SocialFiError>(
                    buy_receipt(
                        old(self)@.markets[old(self)@.market_index(creator)].pool,
                        buyer,
                        now,
                        amount,
                        old(self)@.markets[old(self)@.market_index(creator)].pool.buy_cost_outcome(
                            amount,
                        )->Ok_0,
                    ),
                ),
            },
    {
        if config.paused {
            return Err(SocialFiError::ContractPaused);
        }
        let i: usize = match self.find_market(creator) {
            Some(i) => i,
            None => {
                return Err(SocialFiError::RecordNotFound);
            },
        };
        proof {
            assert(self@.markets[i as int].valid());
        }
        let r = self.markets[i].buy(
            config,
            buyer,
            holding_bump,
            now,
            amount,
            max_price_per_share,
        );
        proof {
            self.market_changed(old(self), i as int);
            assert(old(self)@.market_index(creator) == i);
            assert(old(self)@.markets.update(i as int, old(self)@.markets[i as int]) =~= old(
                self,
            )@.markets);
        }
        r
    }

    /// Settles a sell order of `seller` on the market of `creator`.
    ///
    /// Without such a market the order is rejected with `RecordNotFound`.
    /// Otherwise the market settles it against its own reserve, and no
    /// other record changes.
    pub fn sell_shares(
        &mut self,
        config: &PlatformConfig,
        seller: Address,
        creator: Address,
        now: i64,
        amount: u64,
        min_price_per_share: u64,
    ) -> (r: Result<SharesSold, SocialFiError>)
        requires
            old(self).wf(),
        ensures
            final(self).wf(),
            final(self)@ == old(self)@.after_sell(
                *config,
                seller,
                creator,
                amount,
                min_price_per_share,
            ),
            match old(self)@.sell_rejection(*config, seller, creator, amount, min_price_per_share) {
                Some(e) => r == Err::<SharesSold, SocialFiError>(e),
                None => r == Ok::<SharesSold, SocialFiError>(
                    sell_receipt(
                        old(self)@.markets[old(self)@.market_index(creator)].pool,
                        old(self)@.markets[old(self)@.market_index(creator)].position_of(seller),
                        now,
                        amount,
                        old(self)@.markets[old(self)@.market_index(
                            creator,
                        )].pool.sell_proceeds_outcome(amount)->Ok_0,
                    ),
                ),
            },
    {
        if config.paused {
            return Err(SocialFiError::ContractPaused);
        }
        let i: usize = match self.find_market(creator) {
            Some(i) => i,
            None => {
                return Err(SocialFiError::RecordNotFound);
            },
        };
        proof {
            assert(self@.markets[i as int].valid());
        }
        let r = self.markets[i].sell(config, seller, now, amount, min_price_per_share);
        proof {
            self.market_changed(old(self), i as int);
            assert(old(self)@.market_index(creator) == i);
            assert(old(self)@.markets.update(i as int, old(self)@.markets[i as int]) =~= old(
                self,
            )@.markets);
        }
        r
    }

    /// When one market was replaced by a consistent market of the same
    /// creator and nothing else changed, the ledger is still consistent.
    proof fn market_changed(&self, before: &Ledger, i: int)
        requires
            before.wf(),
            0 <= i < before.markets@.len(),
            self.markets@.len() == before.markets@.len(),
            forall|j: int| 0 <= j < before.markets@.len() && j != i ==> self.markets@[j]
                == before.markets@[j],
            self.markets@[i]@.valid(),
            self.markets@[i]@.pool.creator == before.markets@[i]@.pool.creator,
            self.stakes@ == before.stakes@,
            self.ballots@ == before.ballots@,
        ensures
            self.wf(),
            self@.markets == before@.markets.update(i, self.markets@[i]@),
            self@.stakes == before@.stakes,
            self@.ballots == before@.ballots,
    {
        assert(self@.markets =~= before@.markets.update(i, self.markets@[i]@));
        assert(self@.stakes == before@.stakes);
        assert(self@.ballots =~= before@.ballots);
        assert forall|a: int| 0 <= a < self@.markets.len() implies (
        #[trigger] self@.markets[a]).valid() by {
            if a != i {
                assert(self@.markets[a] == before@.markets[a]);
            }
        }
        assert forall|a: int, b: int| 0 <= a < b < self@.markets.len() implies (
        #[trigger] self@.markets[a]).pool.creator != (#[trigger] self@.markets[b]).pool.creator by {
            assert(self@.markets[a].pool.creator == before@.markets[a].pool.creator);
            assert(self@.markets[b].pool.creator == before@.markets[b].pool.creator);
        }
    }

    fn find_ballot(&self, id: Address) -> (r: Option<usize>)
        ensures
            match r {
                Some(i) => i < self@.ballots.len() && self@.ballots[i as int].proposal.id == id,
                None => !self@.has_ballot(id),
            },
    {
        let mut i: usize = 0;
        while i < self.ballots.len()
            invariant
                i <= self.ballots@.len(),
                self@.ballots.len() == self.ballots@.len(),
                forall|j: int| 0 <= j < i ==> (#[trigger] self@.ballots[j]).proposal.id != id,
            decreases self.ballots@.len() - i,
        {
            if self.ballots[i].proposal().id == id {
                return Some(i);
            }
            i = i + 1;
        }
        None
    }

    fn has_title(&self, proposer: Address, title: &String) -> (r: bool)
        ensures
            r == self@.has_title(proposer, title@),
    {
        let mut i: usize = 0;
        while i < self.ballots.len()
            invariant
                i <= self.ballots@.len(),
                self@.ballots.len() == self.ballots@.len(),
                forall|j: int|
                    0 <= j < i ==> !((#[trigger] self@.ballots[j]).proposal.proposer == proposer
                        && self@.ballots[j].proposal.title@ == title@),
            decreases self.ballots@.len() - i,
        {
            let proposal: &Proposal = self.ballots[i].proposal();
            if proposal.proposer == proposer && proposal.title == *title {
                proof {
                    assert(self@.ballots[i as int].proposal.proposer == proposer
                        && self@.ballots[i as int].proposal.title@ == title@);
                }
                return true;
            }
            i = i + 1;
        }
        false
    }

    /// The proposal under the identity `id`, if there is one.
    pub fn proposal_of(&self, id: Address) -> (r: Option<&Proposal>)
        requires
            self.wf(),
        ensures
            r is Some <==> self@.has_ballot(id),
            r matches Some(proposal) ==> *proposal == self@.ballots[self@.ballot_index(
                id,
            )].proposal,
    {
        match self.find_ballot(id) {
            Some(i) => Some(self.ballots[i].proposal()),
            None => None,
        }
    }

    /// Opens a proposal of `proposer` under the identity `id`.
    ///
    /// There is one proposal per identity and one per proposer and title:
    /// where either is taken the call is rejected with
    /// `RecordAlreadyExists`. A proposer without a stake has no voting
    /// power. Otherwise the proposal is decided as `create_proposal`
    /// decides it, with the proposer's stake as it stands. On rejection
    /// nothing changes.
    pub fn create_proposal(
        &mut self,
        config: &PlatformConfig,
        proposer: Address,
        id: Address,
        title: String,
        description: String,
        category: u8,
        execution_delay: i64,
        now: i64,
        bump: u8,
    ) -> (r: Result<ProposalCreated, SocialFiError>)
        requires
            old(self).wf(),
        ensures
            final(self).wf(),
            final(self)@ == old(self)@.after_create_proposal(
                *config,
                proposer,
                id,
                title,
                description,
                category,
                execution_delay,
                now,
                bump,
            ),
            match old(self)@.proposal_rejection(
                *config,
                proposer,
                id,
                title@,
                description@,
                category,
                execution_delay,
                now,
            ) {
                Some(e) => r == Err::<ProposalCreated, SocialFiError>(e),
                None => r == Ok::<ProposalCreated, SocialFiError>(
                    opened_event(
                        old(self)@.opened_proposal(
                            proposer,
                            id,
                            title,
                            description,
                            category,
                            execution_delay,
                            now,
                            bump,
                        ),
                    ),
                ),
            },
            r is Ok ==> final(self)@.has_ballot(id) && final(self)@.has_title(proposer, title@),
    {
        if config.paused {
            return Err(SocialFiError::ContractPaused);
        }
        if self.find_ballot(id).is_some() || self.has_title(proposer, &title) {
            return Err(SocialFiError::RecordAlreadyExists);
        }
        let stake: StakePosition = match self.find_stake(proposer) {
            Some(i) => self.stakes[i],
            None => {
                return Err(SocialFiError::InsufficientVotingPower);
            },
        };
        let ghost title_text = title@;
        match ProposalBallot::open(
            config,
            &stake,
            id,
            title,
            description,
            category,
            execution_delay,
            now,
            bump,
        ) {
            Ok((ballot, event)) => {
                proof {
                    assert(ballot@.votes =~= Seq::<Vote>::empty());
                }
                self.ballots.push(ballot);
                proof {
                    let before = old(self)@.ballots;
                    let after = self@.ballots;
                    assert(self@.markets =~= old(self)@.markets);
                    assert(self@.stakes == old(self)@.stakes);
                    assert(after =~= before.push(ballot@));
                    let last = after[after.len() - 1];
                    assert(last.proposal.id == id && last.proposal.proposer == proposer
                        && last.proposal.title@ == title_text);
                    assert forall|i: int| 0 <= i < after.len() implies (
                    #[trigger] after[i]).valid() by {
                        if i < before.len() {
                            assert(after[i] == before[i]);
                        }
                    }
                    assert forall|i: int, j: int| 0 <= i < j < after.len() implies (
                    #[trigger] after[i]).proposal.id != (#[trigger] after[j]).proposal.id by {
                        assert(after[i] == before[i]);
                        if j < before.len() {
                            assert(after[j] == before[j]);
                        }
                    }
                    assert forall|i: int, j: int| 0 <= i < j < after.len() implies !((
                    #[trigger] after[i]).proposal.proposer == (
                    #[trigger] after[j]).proposal.proposer && after[i].proposal.title@
                        == after[j].proposal.title@) by {
                        assert(after[i] == before[i]);
                        if j < before.len() {
                            assert(after[j] == before[j]);
                        }
                    }
                }
                Ok(event)
            },
            Err(e) => Err(e),
        }
    }

    /// Counts the vote of `voter` on the proposal under the identity `id`.
    ///
    /// A voter votes once on a proposal: a second vote is rejected with
    /// `AlreadyVoted`, whatever its type and whatever has become of the
    /// voter's stake. The vote carries the voting power of the voter's
    /// stake as it stands now; later changes of the stake do not touch the
    /// tallies. On rejection nothing changes.
    pub fn cast_vote(
        &mut self,
        config: &PlatformConfig,
        voter: Address,
        id: Address,
        vote_type: u8,
        now: i64,
        bump: u8,
    ) -> (r: Result<VoteCast, SocialFiError>)
        requires
            old(self).wf(),
        ensures
            final(self).wf(),
            final(self)@ == old(self)@.after_cast_vote(*config, voter, id, vote_type, now, bump),
            match old(self)@.vote_rejection(*config, voter, id, vote_type, now) {
                Some(e) => r == Err::<VoteCast, SocialFiError>(e),
                None => r == Ok::<VoteCast, SocialFiError>(
                    vote_event(
                        vote_record(
                            old(self)@.ballots[old(self)@.ballot_index(id)].proposal,
                            old(self)@.stakes[old(self)@.stake_index(voter)],
                            vote_type,
                            now,
                            bump,
                        ),
                    ),
                ),
            },
    {
        if config.paused {
            return Err(SocialFiError::ContractPaused);
        }
        let i: usize = match self.find_ballot(id) {
            Some(i) => i,
            None => {
                return Err(SocialFiError::RecordNotFound);
            },
        };
        proof {
            assert(self@.ballots[i as int].valid());
            assert(old(self)@.ballot_index(id) == i);
        }
        if self.ballots[i].vote_of(voter).is_some() {
            return Err(SocialFiError::AlreadyVoted);
        }
        let stake: StakePosition = match self.find_stake(voter) {
            Some(k) => self.stakes[k],
            None => {
                return Err(SocialFiError::InsufficientVotingPower);
            },
        };
        let r = self.ballots[i].cast(config, &stake, vote_type, now, bump);
        proof {
            self.ballot_changed(old(self), i as int);
            assert(old(self)@.ballots.update(i as int, old(self)@.ballots[i as int]) =~= old(
                self,
            )@.ballots);
        }
        r
    }

    /// Executes the proposal under the identity `id` on behalf of
    /// `executor`.
    ///
    /// Without such a proposal the call is rejected with `RecordNotFound`.
    /// Otherwise it is decided as `execute_proposal` decides it. On
    /// rejection nothing changes.
    pub fn execute_proposal(
        &mut self,
        config: &PlatformConfig,
        executor: Address,
        id: Address,
        now: i64,
    ) -> (r: Result<ProposalExecuted, SocialFiError>)
        requires
            old(self).wf(),
        ensures
            final(self).wf(),
            final(self)@ == old(self)@.after_execute_proposal(*config, id, now),
            match old(self)@.execution_rejection(*config, id, now) {
                Some(e) => r == Err::<ProposalExecuted, SocialFiError>(e),
                None => r == Ok::<ProposalExecuted, SocialFiError>(
                    (ProposalExecuted {
                        proposal: id,
                        executor,
                        votes_for: old(self)@.ballots[old(self)@.ballot_index(
                            id,
                        )].proposal.votes_for,
                        votes_against: old(self)@.ballots[old(self)@.ballot_index(
                            id,
                        )].proposal.votes_against,
                        timestamp: now,
                    }),
                ),
            },
    {
        if config.paused {
            return Err(SocialFiError::ContractPaused);
        }
        let i: usize = match self.find_ballot(id) {
            Some(i) => i,
            None => {
                return Err(SocialFiError::RecordNotFound);
            },
        };
        proof {
            assert(self@.ballots[i as int].valid());
            assert(old(self)@.ballot_index(id) == i);
        }
        let r = self.ballots[i].execute(config, executor, now);
        proof {
            self.ballot_changed(old(self), i as int);
            assert(old(self)@.ballots.update(i as int, old(self)@.ballots[i as int]) =~= old(
                self,
            )@.ballots);
        }
        r
    }

    /// When one ballot was replaced by a consistent ballot of the same
    /// proposal and nothing else changed, the ledger is still consistent.
    proof fn ballot_changed(&self, before: &Ledger, i: int)
        requires
            before.wf(),
            0 <= i < before.ballots@.len(),
            self.ballots@.len() == before.ballots@.len(),
            forall|j: int| 0 <= j < before.ballots@.len() && j != i ==> self.ballots@[j]
                == before.ballots@[j],
            self.ballots@[i]@.valid(),
            self.ballots@[i]@.proposal.id == before.ballots@[i]@.proposal.id,
            self.ballots@[i]@.proposal.proposer == before.ballots@[i]@.proposal.proposer,
            self.ballots@[i]@.proposal.title == before.ballots@[i]@.proposal.title,
            self.stakes@ == before.stakes@,
            self.markets@ == before.markets@,
        ensures
            self.wf(),
            self@.ballots == before@.ballots.update(i, self.ballots@[i]@),
            self@.stakes == before@.stakes,
            self@.markets == before@.markets,
    {
        assert(self@.ballots =~= before@.ballots.update(i, self.ballots@[i]@));
        assert(self@.stakes == before@.stakes);
        assert(self@.markets =~= before@.markets);
        assert forall|a: int| 0 <= a < self@.ballots.len() implies (
        #[trigger] self@.ballots[a]).valid() by {
            if a != i {
                assert(self@.ballots[a] == before@.ballots[a]);
            }
        }
        assert forall|a: int, b: int| 0 <= a < b < self@.ballots.len() implies (
        #[trigger] self@.ballots[a]).proposal.id != (#[trigger] self@.ballots[b]).proposal.id by {
            assert(self@.ballots[a].proposal.id == before@.ballots[a].proposal.id);
            assert(self@.ballots[b].proposal.id == before@.ballots[b].proposal.id);
        }
        assert forall|a: int, b: int| 0 <= a < b < self@.ballots.len() implies !((
        #[trigger] self@.ballots[a]).proposal.proposer == (
        #[trigger] self@.ballots[b]).proposal.proposer && self@.ballots[a].proposal.title@
            == self@.ballots[b].proposal.title@) by {
            assert(self@.ballots[a].proposal.proposer == before@.ballots[a].proposal.proposer);
            assert(self@.ballots[b].proposal.proposer == before@.ballots[b].proposal.proposer);
            assert(self@.ballots[a].proposal.title == before@.ballots[a].proposal.title);
            assert(self@.ballots[b].proposal.title == before@.ballots[b].proposal.title);
        }
    }
}

} // verus!
