//! Staking, voting power, and the life of a proposal.
//!
//! Staking opens a position that is read-only until its lock runs out;
//! unstaking closes it and reports principal and rewards. A proposal is
//! opened by a staker with enough voting power, collects votes until its
//! deadline, and can be executed once it has passed and its delay has run
//! out. A rejected operation changes nothing.

use vstd::prelude::*;
use crate::address::Address;
use crate::constants::{
    MAX_DESCRIPTION_LENGTH, MAX_PROPOSAL_CATEGORY, MAX_PROPOSAL_TITLE_LENGTH, MIN_EXECUTION_DELAY,
    MIN_VOTING_POWER, QUORUM_FACTOR, SECONDS_PER_DAY, STATUS_ACTIVE, STATUS_EXECUTED, VOTE_ABSTAIN,
    VOTE_AGAINST, VOTE_FOR, VOTING_PERIOD,
};
use crate::errors::SocialFiError;
use crate::events::{ProposalCreated, ProposalExecuted, TokensStaked, TokensUnstaked, VoteCast};
use crate::state::{lock_apy, lock_multiplier, PlatformConfig, Proposal, StakePosition, Vote};
use crate::text::{byte_len, text_byte_len};

verus! {

// ==================== Stake Tokens ====================

/// Why a stake is rejected, if it is. The checks apply in this order:
/// platform paused; amount zero; lock period outside the fixed set; unlock
/// time or voting power out of range.
pub open spec fn stake_rejection(
    config: PlatformConfig,
    amount: u64,
    lock_period: u64,
    now: i64,
) -> Option<SocialFiError> {
    if config.paused {
        Some(SocialFiError::ContractPaused)
    } else if amount == 0 {
        Some(SocialFiError::InvalidAmount)
    } else if lock_multiplier(lock_period) is None {
        Some(SocialFiError::InvalidLockPeriod)
    } else if now + lock_period * SECONDS_PER_DAY > i64::MAX || amount * lock_multiplier(
        lock_period,
    )->Some_0 > u64::MAX {
        Some(SocialFiError::ArithmeticOverflow)
    } else {
        None
    }
}

/// The position a stake of `amount` for `lock_period` days opens at `now`.
pub open spec fn staked_position(
    staker: Address,
    amount: u64,
    lock_period: u64,
    now: i64,
    bump: u8,
) -> StakePosition {
    StakePosition {
        staker,
        amount,
        staked_at: now,
        lock_period,
        unlocks_at: (now + lock_period * SECONDS_PER_DAY) as i64,
        rewards: 0,
        voting_power: StakePosition::voting_power_outcome(amount, lock_period)->Ok_0,
        bump,
    }
}

/// What opening `position` reports.
pub open spec fn staked_event(position: StakePosition) -> TokensStaked {
    TokensStaked {
        staker: position.staker,
        amount: position.amount,
        lock_period: position.lock_period,
        voting_power: position.voting_power,
        unlocks_at: position.unlocks_at,
        timestamp: position.staked_at,
    }
}

/// Stakes `amount` tokens of `staker` for `lock_period` days.
///
/// The new position unlocks `lock_period` days after `now` and carries the
/// voting power `amount * multiplier(lock_period) / 10000`. No value moves.
pub fn stake_tokens(
    config: &PlatformConfig,
    staker: Address,
    amount: u64,
    lock_period: u64,
    now: i64,
    bump: u8,
) -> (r: Result<(StakePosition, TokensStaked), SocialFiError>)
    ensures
        match stake_rejection(*config, amount, lock_period, now) {
            Some(e) => r == Err::<(StakePosition, TokensStaked), SocialFiError>(e),
            None => r == Ok::<(StakePosition, TokensStaked), SocialFiError>(
                (
                    staked_position(staker, amount, lock_period, now, bump),
                    staked_event(staked_position(staker, amount, lock_period, now, bump)),
                ),
            ),
        },
{
    if config.paused {
        return Err(SocialFiError::ContractPaused);
    }
    if amount == 0 {
        return Err(SocialFiError::InvalidAmount);
    }
    let voting_power: u64 = match StakePosition::calculate_voting_power(amount, lock_period) {
        Ok(p) => p,
        Err(e) => {
            return Err(e);
        },
    };
    let lock_seconds: i64 = (lock_period as i64) * SECONDS_PER_DAY;
    let unlocks_at: i64 = match now.checked_add(lock_seconds) {
        Some(t) => t,
        None => {
            return Err(SocialFiError::ArithmeticOverflow);
        },
    };
    let position = StakePosition {
        staker,
        amount,
        staked_at: now,
        lock_period,
        unlocks_at,
        rewards: 0,
        voting_power,
        bump,
    };
    let event = TokensStaked {
        staker,
        amount,
        lock_period,
        voting_power,
        unlocks_at,
        timestamp: now,
    };
    Ok((position, event))
}

// ==================== Unstake Tokens ====================

/// Why an unstake is rejected, if it is. The checks apply in this order:
/// platform paused; lock still running; rewards not a 64-bit unsigned
/// number.
pub open spec fn unstake_rejection(
    config: PlatformConfig,
    position: StakePosition,
    now: i64,
) -> Option<SocialFiError> {
    if config.paused {
        Some(SocialFiError::ContractPaused)
    } else if now < position.unlocks_at {
        Some(SocialFiError::TokensLocked)
    } else {
        match position.rewards_outcome(now) {
            Err(e) => Some(e),
            Ok(rewards) => None,
        }
    }
}

/// Closes `position` at `now`.
///
/// Before the unlock time the position cannot be closed. From then on it
/// can, at any moment at which the accrued rewards are a 64-bit unsigned
/// number, however large the products behind them. The receipt names the
/// principal and the rewards, each of which is owed to the staker.
/// Removing the record is the caller's part.
pub fn unstake_tokens(config: &PlatformConfig, position: &StakePosition, now: i64) -> (r: Result<
    TokensUnstaked,
    SocialFiError,
>)
    ensures
        match unstake_rejection(*config, *position, now) {
            Some(e) => r == Err::<TokensUnstaked, SocialFiError>(e),
            None => r == Ok::<TokensUnstaked, SocialFiError>(
                (TokensUnstaked {
                    staker: position.staker,
                    amount: position.amount,
                    rewards: position.accrued_rewards(now) as u64,
                    timestamp: now,
                }),
            ),
        },
        !config.paused && now < position.unlocks_at ==> r == Err::<TokensUnstaked, SocialFiError>(
            SocialFiError::TokensLocked,
        ),
        !config.paused && now >= position.unlocks_at && now >= position.staked_at
            && position.accrued_rewards(now) <= u64::MAX ==> r == Ok::<
            TokensUnstaked,
            SocialFiError,
        >(
            (TokensUnstaked {
                staker: position.staker,
                amount: position.amount,
                rewards: position.accrued_rewards(now) as u64,
                timestamp: now,
            }),
        ),
{
    if config.paused {
        return Err(SocialFiError::ContractPaused);
    }
    if !position.is_unlocked(now) {
        return Err(SocialFiError::TokensLocked);
    }
    proof {
        if now >= position.staked_at {
            lemma_rewards_not_negative(*position, now);
        }
    }
    let rewards: u64 = match position.calculate_rewards(now) {
        Ok(v) => v,
        Err(e) => {
            return Err(e);
        },
    };
    Ok(TokensUnstaked { staker: position.staker, amount: position.amount, rewards, timestamp: now })
}

/// From the stake time on the accrued rewards are never negative.
pub proof fn lemma_rewards_not_negative(position: StakePosition, now: i64)
    requires
        now >= position.staked_at,
    ensures
        position.accrued_rewards(now) >= 0,
{
    let yearly = position.amount * lock_apy(position.lock_period);
    let elapsed = now - position.staked_at;
    assert(yearly >= 0) by (nonlinear_arith)
        requires
            yearly == position.amount * lock_apy(position.lock_period),
            position.amount >= 0,
            lock_apy(position.lock_period) >= 0,
    ;
    assert(yearly * elapsed >= 0) by (nonlinear_arith)
        requires
            yearly >= 0,
            elapsed >= 0,
    ;
}

/// The lock is the only thing that stands between a staker and the stake:
/// on a running platform, at or after the unlock time, a position can be
/// closed at every moment at which its accrued rewards are a 64-bit
/// unsigned number. The size of the products behind the rewards plays no
/// part, and neither does the sum of principal and rewards.
pub proof fn law_unstake_after_unlock(config: PlatformConfig, position: StakePosition, now: i64)
    requires
        !config.paused,
        now >= position.unlocks_at,
        0 <= position.accrued_rewards(now) <= u64::MAX,
    ensures
        unstake_rejection(config, position, now) is None,
{
}

/// For a position as `stake_tokens` opens it, the unlock time is not before
/// the stake time, so from the unlock time on the rewards are never
/// negative: such a position can be closed whenever its rewards fit in 64
/// bits.
pub proof fn law_staked_position_unlocks(
    config: PlatformConfig,
    staker: Address,
    amount: u64,
    lock_period: u64,
    staked_at: i64,
    bump: u8,
    now: i64,
)
    requires
        !config.paused,
        stake_rejection(config, amount, lock_period, staked_at) is None,
        now >= staked_position(staker, amount, lock_period, staked_at, bump).unlocks_at,
        staked_position(staker, amount, lock_period, staked_at, bump).accrued_rewards(now)
            <= u64::MAX,
    ensures
        unstake_rejection(
            config,
            staked_position(staker, amount, lock_period, staked_at, bump),
            now,
        ) is None,
{
    let position = staked_position(staker, amount, lock_period, staked_at, bump);
    assert(lock_period * SECONDS_PER_DAY >= 0) by (nonlinear_arith)
        requires
            lock_period >= 0,
            SECONDS_PER_DAY == 86400,
    ;
    lemma_rewards_not_negative(position, now);
}

/// Before the unlock time no position can be closed.
pub proof fn law_locked_before_unlock(config: PlatformConfig, position: StakePosition, now: i64)
    requires
        now < position.unlocks_at,
    ensures
        unstake_rejection(config, position, now) is Some,
{
}

// ==================== Create Proposal ====================

/// Why a proposal is not opened, if it is not. The checks apply in this
/// order: platform paused; proposer's voting power below the minimum; title
/// too long; description too long; unknown category; execution delay too
/// short; deadline or quorum out of range.
pub open spec fn proposal_rejection(
    config: PlatformConfig,
    stake: StakePosition,
    title: Seq<char>,
    description: Seq<char>,
    category: u8,
    execution_delay: i64,
    now: i64,
) -> Option<SocialFiError> {
    if config.paused {
        Some(SocialFiError::ContractPaused)
    } else if stake.voting_power < MIN_VOTING_POWER {
        Some(SocialFiError::InsufficientVotingPower)
    } else if byte_len(title) > MAX_PROPOSAL_TITLE_LENGTH {
        Some(SocialFiError::ProposalTitleTooLong)
    } else if byte_len(description) > MAX_DESCRIPTION_LENGTH {
        Some(SocialFiError::ProposalDescriptionTooLong)
    } else if category > MAX_PROPOSAL_CATEGORY {
        Some(SocialFiError::InvalidProposalCategory)
    } else if execution_delay < MIN_EXECUTION_DELAY {
        Some(SocialFiError::ExecutionDelayNotMet)
    } else if now + VOTING_PERIOD > i64::MAX || stake.voting_power * QUORUM_FACTOR > u64::MAX {
        Some(SocialFiError::ArithmeticOverflow)
    } else {
        None
    }
}

/// The proposal that `stake`'s owner opens at `now`: active, with empty
/// tallies, a deadline one voting period ahead, and a quorum of
/// `QUORUM_FACTOR` times the proposer's voting power.
pub open spec fn opened_proposal(
    stake: StakePosition,
    id: Address,
    title: String,
    description: String,
    category: u8,
    execution_delay: i64,
    now: i64,
    bump: u8,
) -> Proposal {
    Proposal {
        id,
        proposer: stake.staker,
        title,
        description,
        category,
        status: STATUS_ACTIVE,
        created_at: now,
        voting_ends_at: (now + VOTING_PERIOD) as i64,
        execution_delay,
        votes_for: 0,
        votes_against: 0,
        votes_abstain: 0,
        quorum_required: (stake.voting_power * QUORUM_FACTOR) as u64,
        executed_at: None,
        bump,
    }
}

/// What opening `proposal` reports.
pub open spec fn opened_event(proposal: Proposal) -> ProposalCreated {
    ProposalCreated {
        proposal: proposal.id,
        proposer: proposal.proposer,
        title: proposal.title,
        category: proposal.category,
        voting_ends_at: proposal.voting_ends_at,
        timestamp: proposal.created_at,
    }
}

/// Opens a proposal under the identity `id` on behalf of the owner of
/// `stake`.
pub fn create_proposal(
    config: &PlatformConfig,
    stake: &StakePosition,
    id: Address,
    title: String,
    description: String,
    category: u8,
    execution_delay: i64,
    now: i64,
    bump: u8,
) -> (r: Result<(Proposal, ProposalCreated), SocialFiError>)
    ensures
        match proposal_rejection(
            *config,
            *stake,
            title@,
            description@,
            category,
            execution_delay,
            now,
        ) {
            Some(e) => r == Err::<(Proposal, ProposalCreated), SocialFiError>(e),
            None => r == Ok::<(Proposal, ProposalCreated), SocialFiError>(
                (
                    opened_proposal(
                        *stake,
                        id,
                        title,
                        description,
                        category,
                        execution_delay,
                        now,
                        bump,
                    ),
                    opened_event(
                        opened_proposal(
                            *stake,
                            id,
                            title,
                            description,
                            category,
                            execution_delay,
                            now,
                            bump,
                        ),
                    ),
                ),
            ),
        },
{
    if config.paused {
        return Err(SocialFiError::ContractPaused);
    }
    if stake.voting_power < MIN_VOTING_POWER {
        return Err(SocialFiError::InsufficientVotingPower);
    }
    if text_byte_len(title.as_str()) > MAX_PROPOSAL_TITLE_LENGTH {
        return Err(SocialFiError::ProposalTitleTooLong);
    }
    if text_byte_len(description.as_str()) > MAX_DESCRIPTION_LENGTH {
        return Err(SocialFiError::ProposalDescriptionTooLong);
    }
    if category > MAX_PROPOSAL_CATEGORY {
        return Err(SocialFiError::InvalidProposalCategory);
    }
    if execution_delay < MIN_EXECUTION_DELAY {
        return Err(SocialFiError::ExecutionDelayNotMet);
    }
    let voting_ends_at: i64 = match now.checked_add(VOTING_PERIOD) {
        Some(t) => t,
        None => {
            return Err(SocialFiError::ArithmeticOverflow);
        },
    };
    let quorum_required: u64 = match stake.voting_power.checked_mul(QUORUM_FACTOR) {
        Some(q) => q,
        None => {
            return Err(SocialFiError::ArithmeticOverflow);
        },
    };
    let event = ProposalCreated {
        proposal: id,
        proposer: stake.staker,
        title: title.clone(),
        category,
        voting_ends_at,
        timestamp: now,
    };
    let proposal = Proposal {
        id,
        proposer: stake.staker,
        title,
        description,
        category,
        status: STATUS_ACTIVE,
        created_at: now,
        voting_ends_at,
        execution_delay,
        votes_for: 0,
        votes_against: 0,
        votes_abstain: 0,
        quorum_required,
        executed_at: None,
        bump,
    };
    Ok((proposal, event))
}

// ==================== Cast Vote ====================

/// Why a vote is rejected, if it is. The checks apply in this order:
/// platform paused; voting no longer open; unknown vote type; tally out of
/// range.
pub open spec fn vote_rejection(
    config: PlatformConfig,
    proposal: Proposal,
    stake: StakePosition,
    vote_type: u8,
    now: i64,
) -> Option<SocialFiError> {
    if config.paused {
        Some(SocialFiError::ContractPaused)
    } else if !proposal.active_at(now) {
        Some(SocialFiError::VotingPeriodEnded)
    } else if vote_type > VOTE_ABSTAIN {
        Some(SocialFiError::InvalidProposalCategory)
    } else if (vote_type == VOTE_FOR && proposal.votes_for + stake.voting_power > u64::MAX) || (
    vote_type == VOTE_AGAINST && proposal.votes_against + stake.voting_power > u64::MAX) || (
    vote_type == VOTE_ABSTAIN && proposal.votes_abstain + stake.voting_power > u64::MAX) {
        Some(SocialFiError::ArithmeticOverflow)
    } else {
        None
    }
}

/// The proposal after a vote of the given type and power: the power is
/// added to the matching tally and nothing else changes.
pub open spec fn proposal_after_vote(proposal: Proposal, vote_type: u8, power: u64) -> Proposal {
    if vote_type == VOTE_FOR {
        Proposal { votes_for: (proposal.votes_for + power) as u64, ..proposal }
    } else if vote_type == VOTE_AGAINST {
        Proposal { votes_against: (proposal.votes_against + power) as u64, ..proposal }
    } else {
        Proposal { votes_abstain: (proposal.votes_abstain + power) as u64, ..proposal }
    }
}

/// The record of a vote: it freezes the voting power the voter had when the
/// vote was cast.
pub open spec fn vote_record(
    proposal: Proposal,
    stake: StakePosition,
    vote_type: u8,
    now: i64,
    bump: u8,
) -> Vote {
    Vote {
        proposal: proposal.id,
        voter: stake.staker,
        vote_type,
        voting_power: stake.voting_power,
        voted_at: now,
        bump,
    }
}

/// What casting `vote` reports.
pub open spec fn vote_event(vote: Vote) -> VoteCast {
    VoteCast {
        proposal: vote.proposal,
        voter: vote.voter,
        vote_type: vote.vote_type,
        voting_power: vote.voting_power,
        timestamp: vote.voted_at,
    }
}

/// Casts the vote of the owner of `stake` on `proposal`.
///
/// The voter's current voting power is added to the tally of the chosen
/// type, and the returned record keeps that power. That a voter votes once
/// only is the keeper of the vote records' part: see `ProposalBallot`.
pub fn cast_vote(
    config: &PlatformConfig,
    proposal: &mut Proposal,
    stake: &StakePosition,
    vote_type: u8,
    now: i64,
    bump: u8,
) -> (r: Result<(Vote, VoteCast), SocialFiError>)
    ensures
        match vote_rejection(*config, *old(proposal), *stake, vote_type, now) {
            Some(e) => r == Err::<(Vote, VoteCast), SocialFiError>(e) && *final(proposal) == *old(
                proposal,
            ),
            None => r == Ok::<(Vote, VoteCast), SocialFiError>(
                (
                    vote_record(*old(proposal), *stake, vote_type, now, bump),
                    vote_event(vote_record(*old(proposal), *stake, vote_type, now, bump)),
                ),
            ) && *final(proposal) == proposal_after_vote(
                *old(proposal),
                vote_type,
                stake.voting_power,
            ),
        },
{
    if config.paused {
        return Err(SocialFiError::ContractPaused);
    }
    if !proposal.is_active(now) {
        return Err(SocialFiError::VotingPeriodEnded);
    }
    if vote_type > VOTE_ABSTAIN {
        return Err(SocialFiError::InvalidProposalCategory);
    }
    let voting_power: u64 = stake.voting_power;
    if vote_type == VOTE_FOR {
        match proposal.votes_for.checked_add(voting_power) {
            Some(v) => {
                proposal.votes_for = v;
            },
            None => {
                return Err(SocialFiError::ArithmeticOverflow);
            },
        }
    } else if vote_type == VOTE_AGAINST {
        match proposal.votes_against.checked_add(voting_power) {
            Some(v) => {
                proposal.votes_against = v;
            },
            None => {
                return Err(SocialFiError::ArithmeticOverflow);
            },
        }
    } else {
        match proposal.votes_abstain.checked_add(voting_power) {
            Some(v) => {
                proposal.votes_abstain = v;
            },
            None => {
                return Err(SocialFiError::ArithmeticOverflow);
            },
        }
    }
    let vote = Vote {
        proposal: proposal.id,
        voter: stake.staker,
        vote_type,
        voting_power,
        voted_at: now,
        bump,
    };
    let event = VoteCast {
        proposal: proposal.id,
        voter: stake.staker,
        vote_type,
        voting_power,
        timestamp: now,
    };
    Ok((vote, event))
}

// ==================== Execute Proposal ====================

/// Why an execution is rejected, if it is. The checks apply in this order:
/// platform paused; voting deadline not reached; not passed by the tallies;
/// execution delay not run out; executed before.
pub open spec fn execution_rejection(
    config: PlatformConfig,
    proposal: Proposal,
    now: i64,
) -> Option<SocialFiError> {
    if config.paused {
        Some(SocialFiError::ContractPaused)
    } else if now < proposal.voting_ends_at {
        Some(SocialFiError::VotingPeriodActive)
    } else if !proposal.passed() {
        Some(SocialFiError::ProposalNotPassed)
    } else if now < proposal.voting_ends_at + proposal.execution_delay {
        Some(SocialFiError::ExecutionDelayNotMet)
    } else if proposal.already_executed() {
        Some(SocialFiError::ProposalAlreadyExecuted)
    } else {
        None
    }
}

/// The proposal after its execution at `now`.
pub open spec fn proposal_after_execution(proposal: Proposal, now: i64) -> Proposal {
    Proposal { status: STATUS_EXECUTED, executed_at: Some(now), ..proposal }
}

/// Executes `proposal` at `now` on behalf of `executor`.
///
/// Whether the proposal has passed is decided by its tallies alone, never
/// by its stored status, so a tie between the votes in favour and the votes
/// against is never executed, and neither is a proposal that was executed
/// before.
pub fn execute_proposal(
    config: &PlatformConfig,
    proposal: &mut Proposal,
    executor: Address,
    now: i64,
) -> (r: Result<ProposalExecuted, SocialFiError>)
    ensures
        match execution_rejection(*config, *old(proposal), now) {
            Some(e) => r == Err::<ProposalExecuted, SocialFiError>(e) && *final(proposal) == *old(
                proposal,
            ),
            None => r == Ok::<ProposalExecuted, SocialFiError>(
                (ProposalExecuted {
                    proposal: old(proposal).id,
                    executor,
                    votes_for: old(proposal).votes_for,
                    votes_against: old(proposal).votes_against,
                    timestamp: now,
                }),
            ) && *final(proposal) == proposal_after_execution(*old(proposal), now),
        },
        old(proposal).votes_for == old(proposal).votes_against ==> r is Err,
        r is Ok ==> old(proposal).executable_at(now) && !final(proposal).executable_at(now),
{
    if config.paused {
        return Err(SocialFiError::ContractPaused);
    }
    if now < proposal.voting_ends_at {
        return Err(SocialFiError::VotingPeriodActive);
    }
    if !proposal.has_passed() {
        return Err(SocialFiError::ProposalNotPassed);
    }
    if !proposal.can_execute(now) {
        if (now as i128) < proposal.voting_ends_at as i128 + proposal.execution_delay as i128 {
            return Err(SocialFiError::ExecutionDelayNotMet);
        }
        return Err(SocialFiError::ProposalAlreadyExecuted);
    }
    proposal.status = STATUS_EXECUTED;
    proposal.executed_at = Some(now);
    Ok(
        ProposalExecuted {
            proposal: proposal.id,
            executor,
            votes_for: proposal.votes_for,
            votes_against: proposal.votes_against,
            timestamp: now,
        },
    )
}

} // verus!
