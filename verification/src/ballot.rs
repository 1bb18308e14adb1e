//! A proposal together with the votes cast on it: one vote per voter, and
//! tallies that are always the sums of the recorded votes.

use vstd::prelude::*;
use crate::address::Address;
use crate::constants::{VOTE_ABSTAIN, VOTE_AGAINST, VOTE_FOR};
use crate::errors::SocialFiError;
use crate::events::{ProposalCreated, ProposalExecuted, VoteCast};
use crate::instructions::governance::{
    cast_vote, create_proposal, execute_proposal, execution_rejection, opened_event,
    opened_proposal, proposal_after_execution, proposal_after_vote, proposal_rejection,
    vote_event, vote_record, vote_rejection,
};
use crate::state::{PlatformConfig, Proposal, StakePosition, Vote};

verus! {

/// Combined voting power of the recorded votes of one type.
pub open spec fn tally(votes: Seq<Vote>, vote_type: u8) -> nat
    decreases votes.len(),
{
    if votes.len() == 0 {
        0
    } else {
        tally(votes.drop_last(), vote_type) + if votes.last().vote_type == vote_type {
            votes.last().voting_power as nat
        } else {
            0nat
        }
    }
}

/// Whether `voter` has a vote among `votes`.
pub open spec fn has_voted(votes: Seq<Vote>, voter: Address) -> bool {
    exists|i: int| 0 <= i < votes.len() && #[trigger] votes[i].voter == voter
}

/// The mathematical content of a ballot.
pub struct BallotView {
    pub proposal: Proposal,
    pub votes: Seq<Vote>,
}

impl BallotView {
    /// A ballot is consistent when every vote is on this proposal and of a
    /// known type, no voter has two votes, and each tally of the proposal
    /// is the sum of the recorded votes of its type.
    pub open spec fn valid(self) -> bool {
        &&& forall|i: int|
            0 <= i < self.votes.len() ==> (#[trigger] self.votes[i]).proposal == self.proposal.id
                && self.votes[i].vote_type <= VOTE_ABSTAIN
        &&& forall|i: int, j: int|
            0 <= i < j < self.votes.len() ==> #[trigger] self.votes[i].voter
                != #[trigger] self.votes[j].voter
        &&& self.proposal.votes_for == tally(self.votes, VOTE_FOR)
        &&& self.proposal.votes_against == tally(self.votes, VOTE_AGAINST)
        &&& self.proposal.votes_abstain == tally(self.votes, VOTE_ABSTAIN)
    }

    /// Why a vote on this ballot is rejected, if it is: the platform is
    /// paused, the voter has voted before, or for the reasons of
    /// `vote_rejection`.
    pub open spec fn cast_rejection(
        self,
        config: PlatformConfig,
        stake: StakePosition,
        vote_type: u8,
        now: i64,
    ) -> Option<SocialFiError> {
        if config.paused {
            Some(SocialFiError::ContractPaused)
        } else if has_voted(self.votes, stake.staker) {
            Some(SocialFiError::AlreadyVoted)
        } else {
            vote_rejection(config, self.proposal, stake, vote_type, now)
        }
    }

    /// The ballot after a vote: unchanged if the vote is rejected.
    pub open spec fn after_cast(
        self,
        config: PlatformConfig,
        stake: StakePosition,
        vote_type: u8,
        now: i64,
        bump: u8,
    ) -> BallotView {
        if self.cast_rejection(config, stake, vote_type, now) is Some {
            self
        } else {
            BallotView {
                proposal: proposal_after_vote(self.proposal, vote_type, stake.voting_power),
                votes: self.votes.push(vote_record(self.proposal, stake, vote_type, now, bump)),
            }
        }
    }

    /// The ballot after an attempt to execute its proposal.
    pub open spec fn after_execute(self, config: PlatformConfig, now: i64) -> BallotView {
        if execution_rejection(config, self.proposal, now) is Some {
            self
        } else {
            BallotView { proposal: proposal_after_execution(self.proposal, now), ..self }
        }
    }
}

proof fn lemma_tally_push(votes: Seq<Vote>, vote: Vote, vote_type: u8)
    ensures
        tally(votes.push(vote), vote_type) == tally(votes, vote_type) + if vote.vote_type
            == vote_type {
            vote.voting_power as nat
        } else {
            0nat
        },
{
    assert(votes.push(vote).drop_last() =~= votes);
}

/// A vote, counted or rejected, leaves a consistent ballot consistent: the
/// tallies remain the sums of the recorded votes.
pub proof fn law_cast_keeps_ballot_valid(
    ballot: BallotView,
    config: PlatformConfig,
    stake: StakePosition,
    vote_type: u8,
    now: i64,
    bump: u8,
)
    requires
        ballot.valid(),
    ensures
        ballot.after_cast(config, stake, vote_type, now, bump).valid(),
{
    if ballot.cast_rejection(config, stake, vote_type, now) is None {
        let vote = vote_record(ballot.proposal, stake, vote_type, now, bump);
        lemma_tally_push(ballot.votes, vote, VOTE_FOR);
        lemma_tally_push(ballot.votes, vote, VOTE_AGAINST);
        lemma_tally_push(ballot.votes, vote, VOTE_ABSTAIN);
    }
}

/// Once a voter's vote has been counted, every further vote of the same
/// voter on the same ballot is rejected, whatever its type and whenever it
/// comes.
pub proof fn law_no_second_vote(
    ballot: BallotView,
    config: PlatformConfig,
    stake: StakePosition,
    vote_type: u8,
    now: i64,
    bump: u8,
    later_config: PlatformConfig,
    later_stake: StakePosition,
    later_vote_type: u8,
    later: i64,
)
    requires
        ballot.cast_rejection(config, stake, vote_type, now) is None,
        later_stake.staker == stake.staker,
    ensures
        ballot.after_cast(config, stake, vote_type, now, bump).cast_rejection(
            later_config,
            later_stake,
            later_vote_type,
            later,
        ) is Some,
        !later_config.paused ==> ballot.after_cast(
            config,
            stake,
            vote_type,
            now,
            bump,
        ).cast_rejection(later_config, later_stake, later_vote_type, later) == Some(
            SocialFiError::AlreadyVoted,
        ),
{
    let after = ballot.after_cast(config, stake, vote_type, now, bump);
    assert(after.votes[after.votes.len() - 1].voter == stake.staker);
}

/// A proposal and the votes cast on it. The records can be read but are
/// changed only by counted votes and by execution, so the ballot stays
/// consistent.
pub struct ProposalBallot {
    proposal: Proposal,
    votes: Vec<Vote>,
}

impl View for ProposalBallot {
    type V = BallotView;

    closed spec fn view(&self) -> BallotView {
        BallotView { proposal: self.proposal, votes: self.votes@ }
    }
}

impl ProposalBallot {
    /// The ballot is consistent in the sense of `BallotView::valid`.
    pub open spec fn wf(&self) -> bool {
        self@.valid()
    }

    /// Opens a proposal as `create_proposal` does, with no votes yet.
    pub fn open(
        config: &PlatformConfig,
        stake: &StakePosition,
        id: Address,
        title: String,
        description: String,
        category: u8,
        execution_delay: i64,
        now: i64,
        bump: u8,
    ) -> (r: Result<(ProposalBallot, ProposalCreated), SocialFiError>)
        ensures
            match proposal_rejection(
                *config,
                *stake,
                title@,
                description@,
                category,
                execution_delay,
                now,
            ) {
                Some(e) => r is Err && r->Err_0 == e,
                None => r is Ok && r->Ok_0.0.wf() && r->Ok_0.0@.votes.len() == 0
                    && r->Ok_0.0@.proposal == opened_proposal(
                    *stake,
                    id,
                    title,
                    description,
                    category,
                    execution_delay,
                    now,
                    bump,
                ) && r->Ok_0.1 == opened_event(r->Ok_0.0@.proposal),
            },
    {
        match create_proposal(
            config,
            stake,
            id,
            title,
            description,
            category,
            execution_delay,
            now,
            bump,
        ) {
            Ok((proposal, event)) => Ok((ProposalBallot { proposal, votes: Vec::new() }, event)),
            Err(e) => Err(e),
        }
    }

    /// The proposal record.
    pub fn proposal(&self) -> (p: &Proposal)
        ensures
            *p == self@.proposal,
    {
        &self.proposal
    }

    /// Number of votes on record.
    pub fn votes_len(&self) -> (n: usize)
        ensures
            n == self@.votes.len(),
    {
        self.votes.len()
    }

    /// The vote of `voter`, if there is one.
    pub fn vote_of(&self, voter: Address) -> (r: Option<Vote>)
        ensures
            r is Some <==> has_voted(self@.votes, voter),
            r matches Some(vote) ==> vote.voter == voter && self@.votes.contains(vote),
    {
        let mut i: usize = 0;
        while i < self.votes.len()
            invariant
                i <= self.votes@.len(),
                forall|j: int| 0 <= j < i ==> (#[trigger] self.votes@[j]).voter != voter,
            decreases self.votes@.len() - i,
        {
            if self.votes[i].voter == voter {
                return Some(self.votes[i]);
            }
            i = i + 1;
        }
        None
    }

    /// Counts the vote of the owner of `stake`.
    ///
    /// A voter votes once: a second vote is rejected with `AlreadyVoted`
    /// whatever its type. Otherwise the vote is decided as `cast_vote`
    /// decides it, and its record is kept. On rejection nothing changes.
    pub fn cast(
        &mut self,
        config: &PlatformConfig,
        stake: &StakePosition,
        vote_type: u8,
        now: i64,
        bump: u8,
    ) -> (r: Result<VoteCast, SocialFiError>)
        requires
            old(self).wf(),
        ensures
            final(self).wf(),
            final(self)@ == old(self)@.after_cast(*config, *stake, vote_type, now, bump),
            match old(self)@.cast_rejection(*config, *stake, vote_type, now) {
                Some(e) => r == Err::<VoteCast, SocialFiError>(e),
                None => r == Ok::<VoteCast, SocialFiError>(
                    vote_event(vote_record(old(self)@.proposal, *stake, vote_type, now, bump)),
                ),
            },
            r is Ok ==> has_voted(final(self)@.votes, stake.staker),
    {
        proof {
            law_cast_keeps_ballot_valid(self@, *config, *stake, vote_type, now, bump);
        }
        if config.paused {
            return Err(SocialFiError::ContractPaused);
        }
        if self.vote_of(stake.staker).is_some() {
            return Err(SocialFiError::AlreadyVoted);
        }
        match cast_vote(config, &mut self.proposal, stake, vote_type, now, bump) {
            Ok((vote, event)) => {
                self.votes.push(vote);
                proof {
                    assert(self@.votes[self@.votes.len() - 1].voter == stake.staker);
                }
                Ok(event)
            },
            Err(e) => Err(e),
        }
    }

    /// Executes the proposal as `execute_proposal` does. The votes stay on
    /// record.
    pub fn execute(&mut self, config: &PlatformConfig, executor: Address, now: i64) -> (r: Result<
        ProposalExecuted,
        SocialFiError,
    >)
        requires
            old(self).wf(),
        ensures
            final(self).wf(),
            final(self)@ == old(self)@.after_execute(*config, now),
            match execution_rejection(*config, old(self)@.proposal, now) {
                Some(e) => r == Err::<ProposalExecuted, SocialFiError>(e),
                None => r == Ok::<ProposalExecuted, SocialFiError>(
                    (ProposalExecuted {
                        proposal: old(self)@.proposal.id,
                        executor,
                        votes_for: old(self)@.proposal.votes_for,
                        votes_against: old(self)@.proposal.votes_against,
                        timestamp: now,
                    }),
                ),
            },
    {
        execute_proposal(config, &mut self.proposal, executor, now)
    }
}

} // verus!
