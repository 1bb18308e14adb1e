//! Fixed parameters of the market, staking and governance engines.

use vstd::prelude::*;

verus! {

// Bonding curve
/// Price of a share while the scaled supply is still zero, in lamports.
pub const BASE_PRICE: u64 = 10_000_000;

/// Number of shares per step of the curve.
pub const PRICE_SCALE: u64 = 100;

/// Fee withheld from every sale, in basis points.
pub const SELL_FEE_BPS: u64 = 1000;

/// Largest supply a pool may reach.
pub const MAX_SUPPLY: u64 = 1_000_000;

/// Cap applied to the curve before the base-price floor: `u64::MAX / 1000`.
pub const MAX_PRICE: u64 = 18_446_744_073_709_551;

/// Largest number of shares one order may buy or sell.
pub const MAX_SHARES_PER_TX: u64 = 100;

/// A sale must leave at least `total_volume / MIN_LIQUIDITY_DIVISOR` in the reserve.
pub const MIN_LIQUIDITY_DIVISOR: u64 = 10;

// Governance
/// Voting power a staker needs to open a proposal.
pub const MIN_VOTING_POWER: u64 = 1000;

pub const QUORUM_BPS: u64 = 1000;

/// Factor applied to the proposer's voting power to obtain the quorum.
pub const QUORUM_FACTOR: u64 = 10;

/// Length of the voting window in seconds (seven days).
pub const VOTING_PERIOD: i64 = 604_800;

/// Shortest delay between the end of voting and execution (one day).
pub const MIN_EXECUTION_DELAY: i64 = 86_400;

/// Highest valid proposal category (protocol, treasury, feature, parameter).
pub const MAX_PROPOSAL_CATEGORY: u8 = 3;

// Proposal status codes
pub const STATUS_ACTIVE: u8 = 0;

pub const STATUS_PASSED: u8 = 1;

pub const STATUS_REJECTED: u8 = 2;

pub const STATUS_EXECUTED: u8 = 3;

pub const STATUS_CANCELLED: u8 = 4;

// Subscription status codes
pub const SUBSCRIPTION_ACTIVE: u8 = 0;

pub const SUBSCRIPTION_EXPIRED: u8 = 1;

pub const SUBSCRIPTION_CANCELLED: u8 = 2;

// Group codes
pub const ROLE_OWNER: u8 = 0;

pub const ROLE_ADMIN: u8 = 1;

pub const ROLE_MODERATOR: u8 = 2;

pub const ROLE_MEMBER: u8 = 3;

/// Highest valid privacy setting (public, private, secret).
pub const MAX_GROUP_PRIVACY: u8 = 2;

/// Highest valid entry requirement (free, pay, hold a token, hold a collectible).
pub const MAX_ENTRY_REQUIREMENT: u8 = 3;

pub const ENTRY_PAY: u8 = 1;

// Listing categories
pub const LISTING_SHORT: u8 = 1;

pub const LISTING_RARE: u8 = 2;

pub const LISTING_CUSTOM: u8 = 3;

// Vote type codes
pub const VOTE_FOR: u8 = 0;

pub const VOTE_AGAINST: u8 = 1;

pub const VOTE_ABSTAIN: u8 = 2;

// Lock periods, in days
pub const LOCK_0_DAYS: u64 = 0;

pub const LOCK_30_DAYS: u64 = 30;

pub const LOCK_90_DAYS: u64 = 90;

pub const LOCK_180_DAYS: u64 = 180;

pub const LOCK_365_DAYS: u64 = 365;

// Voting power multipliers, in basis points
pub const MULTIPLIER_0_DAYS: u64 = 10000;

pub const MULTIPLIER_30_DAYS: u64 = 12000;

pub const MULTIPLIER_90_DAYS: u64 = 15000;

pub const MULTIPLIER_180_DAYS: u64 = 20000;

pub const MULTIPLIER_365_DAYS: u64 = 30000;

// Annual reward rates, in basis points
pub const APY_0_DAYS: u64 = 500;

pub const APY_30_DAYS: u64 = 1000;

pub const APY_90_DAYS: u64 = 1500;

pub const APY_180_DAYS: u64 = 2000;

pub const APY_365_DAYS: u64 = 3000;

// String limits, in bytes
pub const MAX_USERNAME_LENGTH: usize = 20;

/// Limit on the name of a minted token.
pub const MAX_TITLE_LENGTH: usize = 32;

/// Limit on the title of a proposal.
pub const MAX_PROPOSAL_TITLE_LENGTH: usize = 100;

pub const MAX_DESCRIPTION_LENGTH: usize = 500;

pub const MAX_NAME_LENGTH: usize = 50;

pub const MAX_URI_LENGTH: usize = 200;

pub const MAX_NONCE_LENGTH: usize = 16;

pub const MAX_COMMENT_LENGTH: usize = 280;

/// Number of leading identity bytes a referral code is derived from.
pub const REFERRAL_CODE_BYTES: usize = 6;

// Marketplace
/// Smallest offer accepted on a listing, in lamports.
pub const MIN_OFFER_AMOUNT: u64 = 100_000;

/// Lifetime of an offer in days.
pub const OFFER_LIFETIME_DAYS: i64 = 7;

/// Highest share of lifetime volume the platform may require as reserve, in basis points.
pub const MAX_MIN_LIQUIDITY_BPS: u64 = 5000;

/// Reserve requirement a freshly initialised platform starts with, in basis points.
pub const DEFAULT_MIN_LIQUIDITY_BPS: u64 = 1000;

// Time
pub const SECONDS_PER_DAY: i64 = 86400;

pub const SECONDS_PER_YEAR: i64 = 31536000;

// Precision
pub const BPS_DENOMINATOR: u64 = 10000;

} // verus!
