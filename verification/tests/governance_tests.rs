use social_fi_contract::address::Address;
use social_fi_contract::ballot::ProposalBallot;
use social_fi_contract::errors::SocialFiError;
use social_fi_contract::events::{ProposalCreated, ProposalExecuted, VoteCast};
use social_fi_contract::instructions::governance::{
    cast_vote, create_proposal, execute_proposal, stake_tokens,
};
use social_fi_contract::state::{PlatformConfig, Proposal, StakePosition, Vote};

fn id(n: u8) -> Address {
    Address::new([n; 32])
}

fn live() -> PlatformConfig {
    PlatformConfig {
        admin: id(200),
        fee_collector: id(201),
        paused: false,
        min_liquidity_bps: 1000,
        bump: 254,
    }
}

fn stopped() -> PlatformConfig {
    PlatformConfig { paused: true, ..live() }
}

fn staker(n: u8, amount: u64) -> StakePosition {
    stake_tokens(&live(), id(n), amount, 0, 0, 0).unwrap().0
}

const WEEK: i64 = 604_800;
const DELAY: i64 = 86_400;

fn sample_proposal() -> Proposal {
    create_proposal(
        &live(),
        &staker(1, 1000),
        id(50),
        String::from("Raise the cap"),
        String::from("Raise the supply cap of every pool"),
        2,
        DELAY,
        100,
        3,
    )
    .unwrap()
    .0
}

#[test]
fn create_proposal_snapshots_quorum_and_deadline() {
    let (proposal, event) = create_proposal(
        &live(),
        &staker(1, 1234),
        id(50),
        String::from("Raise the cap"),
        String::from("Raise the supply cap of every pool"),
        2,
        DELAY,
        100,
        3,
    )
    .unwrap();
    assert_eq!(
        proposal,
        Proposal {
            id: id(50),
            proposer: id(1),
            title: String::from("Raise the cap"),
            description: String::from("Raise the supply cap of every pool"),
            category: 2,
            status: 0,
            created_at: 100,
            voting_ends_at: 100 + WEEK,
            execution_delay: DELAY,
            votes_for: 0,
            votes_against: 0,
            votes_abstain: 0,
            quorum_required: 12_340,
            executed_at: None,
            bump: 3,
        }
    );
    assert_eq!(
        event,
        ProposalCreated {
            proposal: id(50),
            proposer: id(1),
            title: String::from("Raise the cap"),
            category: 2,
            voting_ends_at: 100 + WEEK,
            timestamp: 100,
        }
    );
}

#[test]
fn create_proposal_rejections_in_order() {
    let rich = staker(1, 1000);
    let poor = staker(1, 999);
    let long_title = "t".repeat(101);
    let long_text = "d".repeat(501);
    let make = |config: &PlatformConfig,
                stake: &StakePosition,
                title: &str,
                text: &str,
                category: u8,
                delay: i64,
                now: i64| {
        create_proposal(
            config,
            stake,
            id(50),
            String::from(title),
            String::from(text),
            category,
            delay,
            now,
            0,
        )
        .map(|_| ())
    };
    assert_eq!(
        make(&stopped(), &poor, &long_title, &long_text, 9, 0, i64::MAX),
        Err(SocialFiError::ContractPaused)
    );
    assert_eq!(
        make(&live(), &poor, &long_title, &long_text, 9, 0, i64::MAX),
        Err(SocialFiError::InsufficientVotingPower)
    );
    assert_eq!(
        make(&live(), &rich, &long_title, &long_text, 9, 0, i64::MAX),
        Err(SocialFiError::ProposalTitleTooLong)
    );
    assert_eq!(
        make(&live(), &rich, "ok", &long_text, 9, 0, i64::MAX),
        Err(SocialFiError::ProposalDescriptionTooLong)
    );
    assert_eq!(
        make(&live(), &rich, "ok", "ok", 4, 0, i64::MAX),
        Err(SocialFiError::InvalidProposalCategory)
    );
    assert_eq!(
        make(&live(), &rich, "ok", "ok", 3, DELAY - 1, i64::MAX),
        Err(SocialFiError::ExecutionDelayNotMet)
    );
    assert_eq!(
        make(&live(), &rich, "ok", "ok", 3, DELAY, i64::MAX - WEEK + 1),
        Err(SocialFiError::ArithmeticOverflow)
    );
    let whale = StakePosition { voting_power: u64::MAX / 10 + 1, ..rich };
    assert_eq!(
        make(&live(), &whale, "ok", "ok", 3, DELAY, 0),
        Err(SocialFiError::ArithmeticOverflow)
    );
    // the limits themselves are accepted; they count bytes
    assert_eq!(make(&live(), &rich, &"t".repeat(100), &"d".repeat(500), 0, DELAY, 0), Ok(()));
    assert_eq!(
        make(&live(), &rich, &"é".repeat(51), "ok", 0, DELAY, 0),
        Err(SocialFiError::ProposalTitleTooLong)
    );
    assert_eq!(make(&live(), &rich, &"é".repeat(50), "ok", 0, DELAY, 0), Ok(()));
}

#[test]
fn cast_vote_adds_power_to_matching_tally() {
    let mut proposal = sample_proposal();
    let alice = staker(2, 700);
    let bob = staker(3, 300);
    let carol = staker(4, 50);
    let (vote, event) = cast_vote(&live(), &mut proposal, &alice, 0, 200, 8).unwrap();
    assert_eq!(
        vote,
        Vote { proposal: id(50), voter: id(2), vote_type: 0, voting_power: 700, voted_at: 200, bump: 8 }
    );
    assert_eq!(
        event,
        VoteCast { proposal: id(50), voter: id(2), vote_type: 0, voting_power: 700, timestamp: 200 }
    );
    cast_vote(&live(), &mut proposal, &bob, 1, 201, 0).unwrap();
    cast_vote(&live(), &mut proposal, &carol, 2, 202, 0).unwrap();
    assert_eq!(
        (proposal.votes_for, proposal.votes_against, proposal.votes_abstain),
        (700, 300, 50)
    );
    assert_eq!(proposal.status, 0);
}

#[test]
fn cast_vote_rejections() {
    let fresh = sample_proposal();
    let alice = staker(2, 700);
    let mut proposal = fresh.clone();
    assert_eq!(
        cast_vote(&stopped(), &mut proposal, &alice, 0, 200, 0),
        Err(SocialFiError::ContractPaused)
    );
    assert_eq!(
        cast_vote(&live(), &mut proposal, &alice, 0, 100 + WEEK, 0),
        Err(SocialFiError::VotingPeriodEnded)
    );
    assert_eq!(
        cast_vote(&live(), &mut proposal, &alice, 3, 200, 0),
        Err(SocialFiError::InvalidProposalCategory)
    );
    assert_eq!(proposal, fresh);
    assert!(cast_vote(&live(), &mut proposal, &alice, 0, 100 + WEEK - 1, 0).is_ok());

    let mut closed = Proposal { status: 4, ..fresh.clone() };
    assert_eq!(
        cast_vote(&live(), &mut closed, &alice, 0, 200, 0),
        Err(SocialFiError::VotingPeriodEnded)
    );
    let mut brimming = Proposal { votes_against: u64::MAX - 699, ..fresh.clone() };
    assert_eq!(
        cast_vote(&live(), &mut brimming, &alice, 1, 200, 0),
        Err(SocialFiError::ArithmeticOverflow)
    );
    assert_eq!(brimming.votes_against, u64::MAX - 699);
    assert!(cast_vote(&live(), &mut brimming, &alice, 0, 200, 0).is_ok());
}

#[test]
fn vote_keeps_power_of_cast_time() {
    let mut proposal = sample_proposal();
    let before = staker(2, 700);
    let (vote, _) = cast_vote(&live(), &mut proposal, &before, 0, 200, 0).unwrap();
    // the staker's position changes afterwards; the record and the tally do not
    let after = staker(2, 5);
    assert_eq!(after.voting_power, 5);
    assert_eq!(vote.voting_power, 700);
    assert_eq!(proposal.votes_for, 700);
}

#[test]
fn second_vote_is_rejected_whatever_its_type() {
    let (mut ballot, _) = ProposalBallot::open(
        &live(),
        &staker(1, 1000),
        id(50),
        String::from("Raise the cap"),
        String::from("Raise the supply cap of every pool"),
        2,
        DELAY,
        100,
        3,
    )
    .unwrap();
    let alice = staker(2, 700);
    assert!(ballot.vote_of(id(2)).is_none());
    let event = ballot.cast(&live(), &alice, 0, 200, 0).unwrap();
    assert_eq!(event.voting_power, 700);
    for vote_type in 0u8..=3 {
        assert_eq!(
            ballot.cast(&live(), &alice, vote_type, 201, 0),
            Err(SocialFiError::AlreadyVoted)
        );
    }
    // not even with another stake of the same voter, or after the deadline
    let bigger = staker(2, 9_000);
    assert_eq!(ballot.cast(&live(), &bigger, 1, 202, 0), Err(SocialFiError::AlreadyVoted));
    assert_eq!(
        ballot.cast(&live(), &alice, 1, 100 + WEEK + 5, 0),
        Err(SocialFiError::AlreadyVoted)
    );
    assert_eq!(ballot.proposal().votes_for, 700);
    assert_eq!(ballot.proposal().votes_against, 0);
    assert_eq!(ballot.votes_len(), 1);
    assert_eq!(ballot.vote_of(id(2)).unwrap().vote_type, 0);
    // another voter is counted
    ballot.cast(&live(), &staker(3, 10), 1, 203, 0).unwrap();
    assert_eq!(ballot.votes_len(), 2);
    assert_eq!(ballot.proposal().votes_against, 10);
    assert_eq!(ballot.cast(&stopped(), &staker(4, 10), 1, 203, 0), Err(SocialFiError::ContractPaused));
}

#[test]
fn tie_never_passes() {
    for (votes, abstain, quorum) in [(0u64, 0u64, 0u64), (500, 0, 0), (500, 10_000, 100), (u64::MAX, u64::MAX, 0)] {
        let proposal = Proposal {
            votes_for: votes,
            votes_against: votes,
            votes_abstain: abstain,
            quorum_required: quorum,
            ..sample_proposal()
        };
        assert!(!proposal.has_passed());
        assert!(!proposal.can_execute(i64::MAX));
        let mut copy = proposal.clone();
        assert_eq!(
            execute_proposal(&live(), &mut copy, id(9), 100 + WEEK + DELAY),
            Err(SocialFiError::ProposalNotPassed)
        );
        assert_eq!(copy, proposal);
    }
}

#[test]
fn has_passed_needs_quorum_and_strict_majority() {
    let base = Proposal { quorum_required: 1000, ..sample_proposal() };
    let with = |f: u64, a: u64, b: u64| Proposal {
        votes_for: f,
        votes_against: a,
        votes_abstain: b,
        ..base.clone()
    };
    assert!(with(501, 499, 0).has_passed());
    assert!(with(2, 1, 997).has_passed());
    assert!(!with(2, 1, 996).has_passed());
    assert!(!with(499, 501, 1000).has_passed());
    assert!(!with(500, 500, 1000).has_passed());
    // the sum of the tallies is taken without wrapping
    assert!(with(u64::MAX, 1, u64::MAX).has_passed());
}

#[test]
fn is_active_needs_status_and_time() {
    let proposal = sample_proposal();
    assert!(proposal.is_active(100 + WEEK - 1));
    assert!(!proposal.is_active(100 + WEEK));
    assert!(!Proposal { status: 1, ..proposal.clone() }.is_active(200));
    assert!(!Proposal { status: 3, ..proposal }.is_active(200));
}

#[test]
fn execute_walks_through_its_checks() {
    let passed = Proposal { votes_for: 9_000, votes_against: 1_000, votes_abstain: 0, ..sample_proposal() };
    let ends = 100 + WEEK;
    let mut proposal = passed.clone();
    assert_eq!(
        execute_proposal(&stopped(), &mut proposal, id(9), ends + DELAY),
        Err(SocialFiError::ContractPaused)
    );
    assert_eq!(
        execute_proposal(&live(), &mut proposal, id(9), ends - 1),
        Err(SocialFiError::VotingPeriodActive)
    );
    assert_eq!(
        execute_proposal(&live(), &mut proposal, id(9), ends),
        Err(SocialFiError::ExecutionDelayNotMet)
    );
    assert_eq!(
        execute_proposal(&live(), &mut proposal, id(9), ends + DELAY - 1),
        Err(SocialFiError::ExecutionDelayNotMet)
    );
    assert_eq!(proposal, passed);
    assert!(proposal.can_execute(ends + DELAY));
    assert_eq!(
        execute_proposal(&live(), &mut proposal, id(9), ends + DELAY),
        Ok(ProposalExecuted {
            proposal: id(50),
            executor: id(9),
            votes_for: 9_000,
            votes_against: 1_000,
            timestamp: ends + DELAY,
        })
    );
    assert_eq!(proposal.status, 3);
    assert_eq!(proposal.executed_at, Some(ends + DELAY));
    assert!(!proposal.can_execute(ends + DELAY));
    let executed = proposal.clone();
    assert_eq!(
        execute_proposal(&live(), &mut proposal, id(9), ends + DELAY + 1),
        Err(SocialFiError::ProposalAlreadyExecuted)
    );
    assert_eq!(proposal, executed);

    let mut short = Proposal { votes_for: 9_000, votes_against: 999, ..sample_proposal() };
    assert_eq!(
        execute_proposal(&live(), &mut short, id(9), ends + DELAY),
        Err(SocialFiError::ProposalNotPassed)
    );
    // the stored status plays no part in passing
    let mut marked = Proposal { status: 1, votes_for: 1, votes_against: 2, ..sample_proposal() };
    assert_eq!(
        execute_proposal(&live(), &mut marked, id(9), ends + DELAY),
        Err(SocialFiError::ProposalNotPassed)
    );
}

#[test]
fn ballot_runs_a_proposal_from_opening_to_execution() {
    let (mut ballot, created) = ProposalBallot::open(
        &live(),
        &staker(1, 1000),
        id(50),
        String::from("Raise the cap"),
        String::from("Raise the supply cap of every pool"),
        1,
        DELAY,
        0,
        3,
    )
    .unwrap();
    assert_eq!(created.voting_ends_at, WEEK);
    assert_eq!(ballot.proposal().quorum_required, 10_000);
    ballot.cast(&live(), &staker(2, 6_000), 0, 10, 0).unwrap();
    ballot.cast(&live(), &staker(3, 3_000), 1, 11, 0).unwrap();
    assert_eq!(
        ballot.execute(&live(), id(9), WEEK + DELAY),
        Err(SocialFiError::ProposalNotPassed)
    );
    ballot.cast(&live(), &staker(4, 1_000), 2, 12, 0).unwrap();
    assert_eq!(ballot.execute(&live(), id(9), WEEK - 1), Err(SocialFiError::VotingPeriodActive));
    let done = ballot.execute(&live(), id(9), WEEK + DELAY).unwrap();
    assert_eq!(done.votes_for, 6_000);
    assert_eq!(done.votes_against, 3_000);
    assert_eq!(ballot.proposal().status, 3);
    assert_eq!(ballot.votes_len(), 3);
    assert_eq!(
        ballot.execute(&live(), id(9), WEEK + DELAY + 1),
        Err(SocialFiError::ProposalAlreadyExecuted)
    );
    assert!(ProposalBallot::open(
        &live(),
        &staker(1, 999),
        id(50),
        String::from("a"),
        String::from("b"),
        1,
        DELAY,
        0,
        3
    )
    .is_err());
}
