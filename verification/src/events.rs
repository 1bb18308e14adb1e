//! What each operation reports once it has settled.

use vstd::prelude::*;
use crate::address::Address;

verus! {

/// A profile was created.
#[derive(Clone, Debug, PartialEq, Eq)]
pub struct UserInitialized {
    pub user: Address,
    pub username: String,
    pub timestamp: i64,
}

/// A tip moved from one user to another.
#[derive(Clone, Copy, Debug, PartialEq, Eq)]
pub struct TipSent {
    pub sender: Address,
    pub recipient: Address,
    pub amount: u64,
    pub timestamp: i64,
}

/// A buy order settled; `total_cost` is owed by the buyer to the liquidity reserve.
#[derive(Clone, Copy, Debug, PartialEq, Eq)]
pub struct SharesPurchased {
    pub buyer: Address,
    pub creator: Address,
    pub amount: u64,
    pub price: u64,
    pub total_cost: u64,
    pub timestamp: i64,
}

/// A sell order settled; `total_received` is owed by the liquidity reserve to the seller.
#[derive(Clone, Copy, Debug, PartialEq, Eq)]
pub struct SharesSold {
    pub seller: Address,
    pub creator: Address,
    pub amount: u64,
    pub price: u64,
    pub total_received: u64,
    pub fee: u64,
    pub timestamp: i64,
}

/// A creator opened a subscription tier.
#[derive(Clone, Debug, PartialEq, Eq)]
pub struct SubscriptionTierCreated {
    pub creator: Address,
    pub tier_id: u64,
    pub name: String,
    pub price: u64,
    pub timestamp: i64,
}

/// A subscription began.
#[derive(Clone, Copy, Debug, PartialEq, Eq)]
pub struct UserSubscribed {
    pub subscriber: Address,
    pub creator: Address,
    pub tier_id: u64,
    pub start_date: i64,
    pub end_date: i64,
    pub timestamp: i64,
}

/// A subscription was cancelled by its subscriber.
#[derive(Clone, Copy, Debug, PartialEq, Eq)]
pub struct SubscriptionCancelled {
    pub subscriber: Address,
    pub creator: Address,
    pub tier_id: u64,
    pub timestamp: i64,
}

/// A group was created.
#[derive(Clone, Debug, PartialEq, Eq)]
pub struct GroupCreated {
    pub group: Address,
    pub creator: Address,
    pub name: String,
    pub privacy: u8,
    pub timestamp: i64,
}

/// A member entered a group.
#[derive(Clone, Copy, Debug, PartialEq, Eq)]
pub struct MemberJoined {
    pub group: Address,
    pub member: Address,
    pub role: u8,
    pub timestamp: i64,
}

/// A member's role changed.
#[derive(Clone, Copy, Debug, PartialEq, Eq)]
pub struct MemberRoleUpdated {
    pub group: Address,
    pub member: Address,
    pub old_role: u8,
    pub new_role: u8,
    pub updated_by: Address,
    pub timestamp: i64,
}

/// A member was removed from a group.
#[derive(Clone, Copy, Debug, PartialEq, Eq)]
pub struct MemberKicked {
    pub group: Address,
    pub member: Address,
    pub kicked_by: Address,
    pub timestamp: i64,
}

/// A stake position was opened.
#[derive(Clone, Copy, Debug, PartialEq, Eq)]
pub struct TokensStaked {
    pub staker: Address,
    pub amount: u64,
    pub lock_period: u64,
    pub voting_power: u64,
    pub unlocks_at: i64,
    pub timestamp: i64,
}

/// A stake position was closed; the principal `amount` and the `rewards`
/// are each owed to the staker.
#[derive(Clone, Copy, Debug, PartialEq, Eq)]
pub struct TokensUnstaked {
    pub staker: Address,
    pub amount: u64,
    pub rewards: u64,
    pub timestamp: i64,
}

/// A proposal was opened for voting.
#[derive(Clone, Debug, PartialEq, Eq)]
pub struct ProposalCreated {
    pub proposal: Address,
    pub proposer: Address,
    pub title: String,
    pub category: u8,
    pub voting_ends_at: i64,
    pub timestamp: i64,
}

/// A vote was added to a proposal's tallies.
#[derive(Clone, Copy, Debug, PartialEq, Eq)]
pub struct VoteCast {
    pub proposal: Address,
    pub voter: Address,
    pub vote_type: u8,
    pub voting_power: u64,
    pub timestamp: i64,
}

/// A passed proposal was executed.
#[derive(Clone, Copy, Debug, PartialEq, Eq)]
pub struct ProposalExecuted {
    pub proposal: Address,
    pub executor: Address,
    pub votes_for: u64,
    pub votes_against: u64,
    pub timestamp: i64,
}

/// A username token was minted.
#[derive(Clone, Debug, PartialEq, Eq)]
pub struct UsernameMinted {
    pub owner: Address,
    pub username: String,
    pub mint: Address,
    pub nft: Address,
    pub metadata_uri: String,
    pub timestamp: i64,
}

/// A username was put up for sale.
#[derive(Clone, Debug, PartialEq, Eq)]
pub struct UsernameListed {
    pub seller: Address,
    pub username: String,
    pub price: u64,
    pub listing: Address,
    pub timestamp: i64,
}

/// A listing was bought at its price.
#[derive(Clone, Debug, PartialEq, Eq)]
pub struct UsernameSold {
    pub seller: Address,
    pub buyer: Address,
    pub username: String,
    pub price: u64,
    pub timestamp: i64,
}

/// An offer was placed on a listing.
#[derive(Clone, Copy, Debug, PartialEq, Eq)]
pub struct OfferMade {
    pub buyer: Address,
    pub seller: Address,
    pub listing: Address,
    pub amount: u64,
    pub expires_at: i64,
    pub timestamp: i64,
}

/// A seller accepted an offer.
#[derive(Clone, Copy, Debug, PartialEq, Eq)]
pub struct OfferAccepted {
    pub seller: Address,
    pub buyer: Address,
    pub listing: Address,
    pub amount: u64,
    pub timestamp: i64,
}

/// A buyer withdrew an offer.
#[derive(Clone, Copy, Debug, PartialEq, Eq)]
pub struct OfferCancelled {
    pub buyer: Address,
    pub listing: Address,
    pub amount: u64,
    pub timestamp: i64,
}

/// A seller withdrew a listing.
#[derive(Clone, Debug, PartialEq, Eq)]
pub struct ListingCancelled {
    pub seller: Address,
    pub username: String,
    pub listing: Address,
    pub timestamp: i64,
}

/// A post was minted as a token.
#[derive(Clone, Debug, PartialEq, Eq)]
pub struct PostMinted {
    pub author: Address,
    pub uri: String,
    pub mint: Address,
    pub post: Address,
    pub timestamp: i64,
}

} // verus!
