//! The reasons an operation can be rejected for.

use vstd::prelude::*;

verus! {

/// Why an operation was rejected. Every rejection leaves all records untouched.
#[derive(Clone, Copy, Debug, PartialEq, Eq, Structural)]
pub enum SocialFiError {
    UsernameTooLong,
    UsernameAlreadyTaken,
    InvalidUsername,
    InsufficientBalance,
    InvalidAmount,
    CannotTipSelf,
    BondingCurveOverflow,
    InsufficientShares,
    SubscriptionTierNotFound,
    SubscriptionAlreadyActive,
    SubscriptionInactive,
    GroupNameTooLong,
    InvalidGroupPrivacy,
    InvalidEntryRequirement,
    InsufficientTokensForGroup,
    NotGroupMember,
    InsufficientPermissions,
    CannotActOnSelf,
    MemberAlreadyInGroup,
    MemberBanned,
    InvalidLockPeriod,
    TokensLocked,
    InsufficientVotingPower,
    ProposalTitleTooLong,
    ProposalDescriptionTooLong,
    InvalidProposalCategory,
    VotingPeriodEnded,
    VotingPeriodActive,
    AlreadyVoted,
    QuorumNotReached,
    ProposalNotPassed,
    ExecutionDelayNotMet,
    ProposalAlreadyExecuted,
    UsernameAlreadyMinted,
    NotUsernameOwner,
    ListingNotFound,
    InvalidListingPrice,
    InvalidOfferAmount,
    OfferNotFound,
    NotListingSeller,
    ArithmeticOverflow,
    ArithmeticUnderflow,
    InvalidTimestamp,
    SupplyTooHigh,
    PriceTooHigh,
    SlippageExceeded,
    ContractPaused,
    Unauthorized,
    Reentrancy,
    MinimumLiquidityRequired,
    InsufficientLiquidity,
    MetadataUriTooLong,
    PostAlreadyMinted,
    CommentTooLong,
    EmptyContent,
    RecordAlreadyExists,
    RecordNotFound,
}

impl SocialFiError {
    /// The human-readable text of each reason.
    pub open spec fn message_text(self) -> Seq<char> {
        match self {
            SocialFiError::UsernameTooLong => "Username too long (max 20 characters)"@,
            SocialFiError::UsernameAlreadyTaken => "Username already taken"@,
            SocialFiError::InvalidUsername => "Invalid username format"@,
            SocialFiError::InsufficientBalance => "Insufficient balance for this operation"@,
            SocialFiError::InvalidAmount => "Amount must be greater than zero"@,
            SocialFiError::CannotTipSelf => "Cannot tip yourself"@,
            SocialFiError::BondingCurveOverflow => "Bonding curve calculation overflow"@,
            SocialFiError::InsufficientShares => "Not enough shares to sell"@,
            SocialFiError::SubscriptionTierNotFound => "Subscription tier not found"@,
            SocialFiError::SubscriptionAlreadyActive => "Subscription already active"@,
            SocialFiError::SubscriptionInactive => "Subscription expired or cancelled"@,
            SocialFiError::GroupNameTooLong => "Group name too long"@,
            SocialFiError::InvalidGroupPrivacy => "Invalid group privacy setting"@,
            SocialFiError::InvalidEntryRequirement => "Invalid entry requirement"@,
            SocialFiError::InsufficientTokensForGroup => "Insufficient tokens to join group"@,
            SocialFiError::NotGroupMember => "Not a member of this group"@,
            SocialFiError::InsufficientPermissions => "Insufficient permissions"@,
            SocialFiError::CannotActOnSelf => "Cannot perform action on yourself"@,
            SocialFiError::MemberAlreadyInGroup => "Member already in group"@,
            SocialFiError::MemberBanned => "Member is banned from this group"@,
            SocialFiError::InvalidLockPeriod => "Invalid lock period"@,
            SocialFiError::TokensLocked => "Tokens are still locked"@,
            SocialFiError::InsufficientVotingPower => "Insufficient voting power to create proposal"@,
            SocialFiError::ProposalTitleTooLong => "Proposal title too long"@,
            SocialFiError::ProposalDescriptionTooLong => "Proposal description too long"@,
            SocialFiError::InvalidProposalCategory => "Invalid proposal category"@,
            SocialFiError::VotingPeriodEnded => "Voting period has ended"@,
            SocialFiError::VotingPeriodActive => "Voting period still active"@,
            SocialFiError::AlreadyVoted => "Already voted on this proposal"@,
            SocialFiError::QuorumNotReached => "Quorum not reached"@,
            SocialFiError::ProposalNotPassed => "Proposal did not pass"@,
            SocialFiError::ExecutionDelayNotMet => "Execution delay not met"@,
            SocialFiError::ProposalAlreadyExecuted => "Proposal already executed"@,
            SocialFiError::UsernameAlreadyMinted => "Username NFT already minted"@,
            SocialFiError::NotUsernameOwner => "Not the owner of this username NFT"@,
            SocialFiError::ListingNotFound => "Username listing not found"@,
            SocialFiError::InvalidListingPrice => "Listing price must be greater than zero"@,
            SocialFiError::InvalidOfferAmount => "Offer amount must be greater than zero"@,
            SocialFiError::OfferNotFound => "Offer not found or expired"@,
            SocialFiError::NotListingSeller => "Not the listing seller"@,
            SocialFiError::ArithmeticOverflow => "Arithmetic overflow"@,
            SocialFiError::ArithmeticUnderflow => "Arithmetic underflow"@,
            SocialFiError::InvalidTimestamp => "Invalid timestamp"@,
            SocialFiError::SupplyTooHigh => "Supply exceeds maximum limit"@,
            SocialFiError::PriceTooHigh => "Price exceeds maximum limit"@,
            SocialFiError::SlippageExceeded => "Slippage tolerance exceeded"@,
            SocialFiError::ContractPaused => "Contract is paused"@,
            SocialFiError::Unauthorized => "Unauthorized: admin only"@,
            SocialFiError::Reentrancy => "Reentrancy detected"@,
            SocialFiError::MinimumLiquidityRequired => "Minimum liquidity requirement not met"@,
            SocialFiError::InsufficientLiquidity => "Insufficient liquidity in pool"@,
            SocialFiError::MetadataUriTooLong => "Metadata URI or nonce too long"@,
            SocialFiError::PostAlreadyMinted => "Post already minted"@,
            SocialFiError::CommentTooLong => "Comment too long (max 280 bytes)"@,
            SocialFiError::EmptyContent => "Content must not be empty"@,
            SocialFiError::RecordAlreadyExists => "A record already exists under this key"@,
            SocialFiError::RecordNotFound => "No record exists under this key"@,
        }
    }

    /// A one-line description of the reason, for display to the caller.
    pub fn message(&self) -> (m: &'static str)
        ensures
            m@ == self.message_text(),
    {
        match self {
            SocialFiError::UsernameTooLong => "Username too long (max 20 characters)",
            SocialFiError::UsernameAlreadyTaken => "Username already taken",
            SocialFiError::InvalidUsername => "Invalid username format",
            SocialFiError::InsufficientBalance => "Insufficient balance for this operation",
            SocialFiError::InvalidAmount => "Amount must be greater than zero",
            SocialFiError::CannotTipSelf => "Cannot tip yourself",
            SocialFiError::BondingCurveOverflow => "Bonding curve calculation overflow",
            SocialFiError::InsufficientShares => "Not enough shares to sell",
            SocialFiError::SubscriptionTierNotFound => "Subscription tier not found",
            SocialFiError::SubscriptionAlreadyActive => "Subscription already active",
            SocialFiError::SubscriptionInactive => "Subscription expired or cancelled",
            SocialFiError::GroupNameTooLong => "Group name too long",
            SocialFiError::InvalidGroupPrivacy => "Invalid group privacy setting",
            SocialFiError::InvalidEntryRequirement => "Invalid entry requirement",
            SocialFiError::InsufficientTokensForGroup => "Insufficient tokens to join group",
            SocialFiError::NotGroupMember => "Not a member of this group",
            SocialFiError::InsufficientPermissions => "Insufficient permissions",
            SocialFiError::CannotActOnSelf => "Cannot perform action on yourself",
            SocialFiError::MemberAlreadyInGroup => "Member already in group",
            SocialFiError::MemberBanned => "Member is banned from this group",
            SocialFiError::InvalidLockPeriod => "Invalid lock period",
            SocialFiError::TokensLocked => "Tokens are still locked",
            SocialFiError::InsufficientVotingPower => "Insufficient voting power to create proposal",
            SocialFiError::ProposalTitleTooLong => "Proposal title too long",
            SocialFiError::ProposalDescriptionTooLong => "Proposal description too long",
            SocialFiError::InvalidProposalCategory => "Invalid proposal category",
            SocialFiError::VotingPeriodEnded => "Voting period has ended",
            SocialFiError::VotingPeriodActive => "Voting period still active",
            SocialFiError::AlreadyVoted => "Already voted on this proposal",
            SocialFiError::QuorumNotReached => "Quorum not reached",
            SocialFiError::ProposalNotPassed => "Proposal did not pass",
            SocialFiError::ExecutionDelayNotMet => "Execution delay not met",
            SocialFiError::ProposalAlreadyExecuted => "Proposal already executed",
            SocialFiError::UsernameAlreadyMinted => "Username NFT already minted",
            SocialFiError::NotUsernameOwner => "Not the owner of this username NFT",
            SocialFiError::ListingNotFound => "Username listing not found",
            SocialFiError::InvalidListingPrice => "Listing price must be greater than zero",
            SocialFiError::InvalidOfferAmount => "Offer amount must be greater than zero",
            SocialFiError::OfferNotFound => "Offer not found or expired",
            SocialFiError::NotListingSeller => "Not the listing seller",
            SocialFiError::ArithmeticOverflow => "Arithmetic overflow",
            SocialFiError::ArithmeticUnderflow => "Arithmetic underflow",
            SocialFiError::InvalidTimestamp => "Invalid timestamp",
            SocialFiError::SupplyTooHigh => "Supply exceeds maximum limit",
            SocialFiError::PriceTooHigh => "Price exceeds maximum limit",
            SocialFiError::SlippageExceeded => "Slippage tolerance exceeded",
            SocialFiError::ContractPaused => "Contract is paused",
            SocialFiError::Unauthorized => "Unauthorized: admin only",
            SocialFiError::Reentrancy => "Reentrancy detected",
            SocialFiError::MinimumLiquidityRequired => "Minimum liquidity requirement not met",
            SocialFiError::InsufficientLiquidity => "Insufficient liquidity in pool",
            SocialFiError::MetadataUriTooLong => "Metadata URI or nonce too long",
            SocialFiError::PostAlreadyMinted => "Post already minted",
            SocialFiError::CommentTooLong => "Comment too long (max 280 bytes)",
            SocialFiError::EmptyContent => "Content must not be empty",
            SocialFiError::RecordAlreadyExists => "A record already exists under this key",
            SocialFiError::RecordNotFound => "No record exists under this key",
        }
    }
}

} // verus!
