//! Usernames as tokens: minting, listing, sales and offers.
//!
//! The operations decide on the records and on what a token account shows;
//! minting the token, moving it and moving funds are the caller's part.

use vstd::prelude::*;
use vstd::string::StringExecFns;
use crate::address::Address;
use crate::constants::{
    LISTING_CUSTOM, LISTING_RARE, LISTING_SHORT, MAX_URI_LENGTH, MAX_USERNAME_LENGTH,
    MIN_OFFER_AMOUNT, OFFER_LIFETIME_DAYS, SECONDS_PER_DAY,
};
use crate::errors::SocialFiError;
use crate::events::{
    ListingCancelled, OfferAccepted, OfferCancelled, OfferMade, UsernameListed, UsernameMinted,
    UsernameSold,
};
use crate::state::{Listing, Offer, PlatformConfig, TokenHolding, UsernameNFT};
use crate::text::{byte_len, is_minted_name, minted_name_char, text_byte_len};

verus! {

// ==================== Mint Username ====================

/// Whether every character of `name` may stand in a minted username.
pub open spec fn minted_name_ok(name: Seq<char>) -> bool {
    forall|i: int| 0 <= i < name.len() ==> minted_name_char(#[trigger] name[i])
}

/// Why a username is not minted, if it is not. The checks apply in this
/// order: platform paused; name too long; name with a character other than
/// letters, digits, underscore, hyphen and full stop; metadata address too
/// long.
pub open spec fn mint_rejection(
    config: PlatformConfig,
    username: Seq<char>,
    metadata_uri: Seq<char>,
) -> Option<SocialFiError> {
    if config.paused {
        Some(SocialFiError::ContractPaused)
    } else if byte_len(username) > MAX_USERNAME_LENGTH {
        Some(SocialFiError::UsernameTooLong)
    } else if !minted_name_ok(username) {
        Some(SocialFiError::InvalidUsername)
    } else if byte_len(metadata_uri) > MAX_URI_LENGTH {
        Some(SocialFiError::MetadataUriTooLong)
    } else {
        None
    }
}

/// The record of a username minted at `now`; it starts unverified.
pub open spec fn minted_username(
    owner: Address,
    mint: Address,
    username: String,
    metadata_uri: String,
    now: i64,
    bump: u8,
) -> UsernameNFT {
    UsernameNFT { owner, username, mint, metadata_uri, verified: false, minted_at: now, bump }
}

/// The name the token of a username carries: the username behind an `@`.
pub fn username_token_name(username: &str) -> (name: String)
    ensures
        name@ == seq!['@'] + username@,
{
    proof {
        reveal_strlit("@");
    }
    let name: String = String::from_str("@").concat(username);
    proof {
        assert("@"@ =~= seq!['@']);
    }
    name
}

/// Records the minting of `username` for `owner`, as the token `mint`, under
/// the record identity `nft`.
pub fn mint_username(
    config: &PlatformConfig,
    owner: Address,
    mint: Address,
    nft: Address,
    username: String,
    metadata_uri: String,
    now: i64,
    bump: u8,
) -> (r: Result<(UsernameNFT, UsernameMinted), SocialFiError>)
    ensures
        match mint_rejection(*config, username@, metadata_uri@) {
            Some(e) => r == Err::<(UsernameNFT, UsernameMinted), SocialFiError>(e),
            None => r == Ok::<(UsernameNFT, UsernameMinted), SocialFiError>(
                (
                    minted_username(owner, mint, username, metadata_uri, now, bump),
                    UsernameMinted { owner, username, mint, nft, metadata_uri, timestamp: now },
                ),
            ),
        },
{
    if config.paused {
        return Err(SocialFiError::ContractPaused);
    }
    if text_byte_len(username.as_str()) > MAX_USERNAME_LENGTH {
        return Err(SocialFiError::UsernameTooLong);
    }
    if !is_minted_name(username.as_str()) {
        return Err(SocialFiError::InvalidUsername);
    }
    if text_byte_len(metadata_uri.as_str()) > MAX_URI_LENGTH {
        return Err(SocialFiError::MetadataUriTooLong);
    }
    let event = UsernameMinted {
        owner,
        username: username.clone(),
        mint,
        nft,
        metadata_uri: metadata_uri.clone(),
        timestamp: now,
    };
    let record = UsernameNFT {
        owner,
        username,
        mint,
        metadata_uri,
        verified: false,
        minted_at: now,
        bump,
    };
    Ok((record, event))
}

// ==================== List Username ====================

/// Why a token account does not back a sale of the token `mint` by
/// `seller`, if it does not. The checks apply in this order: the account
/// holds another token; it belongs to someone else; it does not hold
/// exactly one unit.
pub open spec fn holding_rejection(
    tokens: TokenHolding,
    mint: Address,
    seller: Address,
) -> Option<SocialFiError> {
    if tokens.mint != mint {
        Some(SocialFiError::InvalidListingPrice)
    } else if tokens.owner != seller {
        Some(SocialFiError::NotUsernameOwner)
    } else if tokens.amount != 1 {
        Some(SocialFiError::InsufficientShares)
    } else {
        None
    }
}

/// Checks that `tokens` backs a sale of the token `mint` by `seller`.
pub fn check_holding(tokens: &TokenHolding, mint: Address, seller: Address) -> (r: Result<
    (),
    SocialFiError,
>)
    ensures
        match holding_rejection(*tokens, mint, seller) {
            Some(e) => r == Err::<(), SocialFiError>(e),
            None => r == Ok::<(), SocialFiError>(()),
        },
{
    if tokens.mint != mint {
        return Err(SocialFiError::InvalidListingPrice);
    }
    if tokens.owner != seller {
        return Err(SocialFiError::NotUsernameOwner);
    }
    if tokens.amount != 1 {
        return Err(SocialFiError::InsufficientShares);
    }
    Ok(())
}

/// Category of a listing by the length of the username in bytes: up to
/// three is rare, up to five is short, anything longer is custom.
pub open spec fn listing_category(username: Seq<char>) -> u8 {
    if byte_len(username) <= 3 {
        LISTING_RARE
    } else if byte_len(username) <= 5 {
        LISTING_SHORT
    } else {
        LISTING_CUSTOM
    }
}

/// Why a username is not listed, if it is not. The checks apply in this
/// order: the seller does not own the username; the seller's token account
/// does not back the sale; platform paused; price zero.
pub open spec fn listing_rejection(
    config: PlatformConfig,
    nft: UsernameNFT,
    seller_tokens: TokenHolding,
    seller: Address,
    price: u64,
) -> Option<SocialFiError> {
    if nft.owner != seller {
        Some(SocialFiError::NotUsernameOwner)
    } else if holding_rejection(seller_tokens, nft.mint, seller) is Some {
        holding_rejection(seller_tokens, nft.mint, seller)
    } else if config.paused {
        Some(SocialFiError::ContractPaused)
    } else if price == 0 {
        Some(SocialFiError::InvalidListingPrice)
    } else {
        None
    }
}

/// The listing of `nft` by `seller` at `price`; it does not expire.
pub open spec fn opened_listing(
    nft: UsernameNFT,
    seller: Address,
    price: u64,
    now: i64,
    bump: u8,
) -> Listing {
    Listing {
        seller,
        username: nft.username,
        price,
        category: listing_category(nft.username@),
        listed_at: now,
        expires_at: None,
        bump,
    }
}

/// Puts the username `nft` up for sale at `price`, under the record
/// identity `listing`.
pub fn list_username(
    config: &PlatformConfig,
    nft: &UsernameNFT,
    seller_tokens: &TokenHolding,
    seller: Address,
    listing: Address,
    price: u64,
    now: i64,
    bump: u8,
) -> (r: Result<(Listing, UsernameListed), SocialFiError>)
    ensures
        match listing_rejection(*config, *nft, *seller_tokens, seller, price) {
            Some(e) => r == Err::<(Listing, UsernameListed), SocialFiError>(e),
            None => r == Ok::<(Listing, UsernameListed), SocialFiError>(
                (
                    opened_listing(*nft, seller, price, now, bump),
                    UsernameListed {
                        seller,
                        username: nft.username,
                        price,
                        listing,
                        timestamp: now,
                    },
                ),
            ),
        },
{
    if nft.owner != seller {
        return Err(SocialFiError::NotUsernameOwner);
    }
    match check_holding(seller_tokens, nft.mint, seller) {
        Ok(()) => {},
        Err(e) => {
            return Err(e);
        },
    }
    if config.paused {
        return Err(SocialFiError::ContractPaused);
    }
    if price == 0 {
        return Err(SocialFiError::InvalidListingPrice);
    }
    let length: usize = text_byte_len(nft.username.as_str());
    let category: u8 = if length <= 3 {
        LISTING_RARE
    } else if length <= 5 {
        LISTING_SHORT
    } else {
        LISTING_CUSTOM
    };
    let record = Listing {
        seller,
        username: nft.username.clone(),
        price,
        category,
        listed_at: now,
        expires_at: None,
        bump,
    };
    let event = UsernameListed {
        seller,
        username: nft.username.clone(),
        price,
        listing,
        timestamp: now,
    };
    Ok((record, event))
}

// ==================== Buy Listing ====================

/// Why a listing is not bought, if it is not. The checks apply in this
/// order: the seller's token account does not back the sale; platform
/// paused; the listing has run out.
pub open spec fn purchase_rejection(
    config: PlatformConfig,
    listing: Listing,
    mint: Address,
    seller_tokens: TokenHolding,
    now: i64,
) -> Option<SocialFiError> {
    if holding_rejection(seller_tokens, mint, listing.seller) is Some {
        holding_rejection(seller_tokens, mint, listing.seller)
    } else if config.paused {
        Some(SocialFiError::ContractPaused)
    } else if listing.expires_at matches Some(expires_at) && now >= expires_at {
        Some(SocialFiError::ListingNotFound)
    } else {
        None
    }
}

/// Sells the listed username to `buyer` at the listing's price.
///
/// On success the username belongs to the buyer, who owes the price to the
/// seller. On rejection nothing changes.
pub fn buy_listing(
    config: &PlatformConfig,
    nft: &mut UsernameNFT,
    listing: &Listing,
    mint: Address,
    seller_tokens: &TokenHolding,
    buyer: Address,
    now: i64,
) -> (r: Result<UsernameSold, SocialFiError>)
    ensures
        match purchase_rejection(*config, *listing, mint, *seller_tokens, now) {
            Some(e) => r == Err::<UsernameSold, SocialFiError>(e) && *final(nft) == *old(nft),
            None => r == Ok::<UsernameSold, SocialFiError>(
                (UsernameSold {
                    seller: listing.seller,
                    buyer,
                    username: listing.username,
                    price: listing.price,
                    timestamp: now,
                }),
            ) && *final(nft) == (UsernameNFT { owner: buyer, ..*old(nft) }),
        },
{
    match check_holding(seller_tokens, mint, listing.seller) {
        Ok(()) => {},
        Err(e) => {
            return Err(e);
        },
    }
    if config.paused {
        return Err(SocialFiError::ContractPaused);
    }
    match listing.expires_at {
        Some(expires_at) => {
            if now >= expires_at {
                return Err(SocialFiError::ListingNotFound);
            }
        },
        None => {},
    }
    nft.owner = buyer;
    Ok(
        UsernameSold {
            seller: listing.seller,
            buyer,
            username: listing.username.clone(),
            price: listing.price,
            timestamp: now,
        },
    )
}

// ==================== Make Offer ====================

/// Why an offer is not placed, if it is not. The checks apply in this
/// order: platform paused; amount below the minimum; expiry out of range.
pub open spec fn offer_rejection(config: PlatformConfig, amount: u64, now: i64) -> Option<
    SocialFiError,
> {
    if config.paused {
        Some(SocialFiError::ContractPaused)
    } else if amount < MIN_OFFER_AMOUNT {
        Some(SocialFiError::InvalidOfferAmount)
    } else if now + OFFER_LIFETIME_DAYS * SECONDS_PER_DAY > i64::MAX {
        Some(SocialFiError::ArithmeticOverflow)
    } else {
        None
    }
}

/// The offer of `buyer` on `listing`, placed at `now`.
pub open spec fn placed_offer(listing: Address, buyer: Address, amount: u64, now: i64, bump: u8) ->
    Offer {
    Offer {
        listing,
        buyer,
        amount,
        created_at: now,
        expires_at: (now + OFFER_LIFETIME_DAYS * SECONDS_PER_DAY) as i64,
        bump,
    }
}

/// Places an offer of `amount` by `buyer` on the listing `listing_record`,
/// whose identity is `listing`. The offer runs for seven days.
pub fn make_offer(
    config: &PlatformConfig,
    listing_record: &Listing,
    listing: Address,
    buyer: Address,
    amount: u64,
    now: i64,
    bump: u8,
) -> (r: Result<(Offer, OfferMade), SocialFiError>)
    ensures
        match offer_rejection(*config, amount, now) {
            Some(e) => r == Err::<(Offer, OfferMade), SocialFiError>(e),
            None => r == Ok::<(Offer, OfferMade), SocialFiError>(
                (
                    placed_offer(listing, buyer, amount, now, bump),
                    OfferMade {
                        buyer,
                        seller: listing_record.seller,
                        listing,
                        amount,
                        expires_at: placed_offer(listing, buyer, amount, now, bump).expires_at,
                        timestamp: now,
                    },
                ),
            ),
        },
{
    if config.paused {
        return Err(SocialFiError::ContractPaused);
    }
    if amount < MIN_OFFER_AMOUNT {
        return Err(SocialFiError::InvalidOfferAmount);
    }
    let expires_at: i64 = match now.checked_add(OFFER_LIFETIME_DAYS * SECONDS_PER_DAY) {
        Some(v) => v,
        None => {
            return Err(SocialFiError::ArithmeticOverflow);
        },
    };
    let offer = Offer { listing, buyer, amount, created_at: now, expires_at, bump };
    let event = OfferMade {
        buyer,
        seller: listing_record.seller,
        listing,
        amount,
        expires_at,
        timestamp: now,
    };
    Ok((offer, event))
}

// ==================== Accept Offer ====================

/// What an offer's escrow pays out: its balance above the rent-exempt
/// minimum, and nothing if it holds less than that.
pub open spec fn escrow_payout(escrow_balance: u64, rent_exempt: u64) -> u64 {
    if escrow_balance >= rent_exempt {
        (escrow_balance - rent_exempt) as u64
    } else {
        0
    }
}

/// Computes what an offer's escrow pays out.
pub fn escrow_release(escrow_balance: u64, rent_exempt: u64) -> (paid: u64)
    ensures
        paid == escrow_payout(escrow_balance, rent_exempt),
{
    match escrow_balance.checked_sub(rent_exempt) {
        Some(v) => v,
        None => 0,
    }
}

/// Why an offer is not accepted, if it is not. The checks apply in this
/// order: the caller is not the listing's seller; the seller's token
/// account does not back the sale; platform paused; the offer has run out.
pub open spec fn acceptance_rejection(
    config: PlatformConfig,
    listing: Listing,
    offer: Offer,
    mint: Address,
    seller_tokens: TokenHolding,
    seller: Address,
    now: i64,
) -> Option<SocialFiError> {
    if listing.seller != seller {
        Some(SocialFiError::NotListingSeller)
    } else if holding_rejection(seller_tokens, mint, seller) is Some {
        holding_rejection(seller_tokens, mint, seller)
    } else if config.paused {
        Some(SocialFiError::ContractPaused)
    } else if now >= offer.expires_at {
        Some(SocialFiError::OfferNotFound)
    } else {
        None
    }
}

/// Everything the acceptance of an offer yields.
#[derive(Clone, Copy, Debug, PartialEq, Eq)]
pub struct OfferSettled {
    pub accepted: OfferAccepted,
    /// What the escrow owes the seller.
    pub payment: u64,
}

/// Accepts `offer` on behalf of `seller`.
///
/// On success the username belongs to the offer's buyer and the escrow owes
/// the seller its balance above the rent-exempt minimum. On rejection
/// nothing changes.
pub fn accept_offer(
    config: &PlatformConfig,
    nft: &mut UsernameNFT,
    listing_record: &Listing,
    listing: Address,
    offer: &Offer,
    mint: Address,
    seller_tokens: &TokenHolding,
    seller: Address,
    escrow_balance: u64,
    rent_exempt: u64,
    now: i64,
) -> (r: Result<OfferSettled, SocialFiError>)
    ensures
        match acceptance_rejection(
            *config,
            *listing_record,
            *offer,
            mint,
            *seller_tokens,
            seller,
            now,
        ) {
            Some(e) => r == Err::<OfferSettled, SocialFiError>(e) && *final(nft) == *old(nft),
            None => r == Ok::<OfferSettled, SocialFiError>(
                (OfferSettled {
                    accepted: OfferAccepted {
                        seller,
                        buyer: offer.buyer,
                        listing,
                        amount: offer.amount,
                        timestamp: now,
                    },
                    payment: escrow_payout(escrow_balance, rent_exempt),
                }),
            ) && *final(nft) == (UsernameNFT { owner: offer.buyer, ..*old(nft) }),
        },
{
    if listing_record.seller != seller {
        return Err(SocialFiError::NotListingSeller);
    }
    match check_holding(seller_tokens, mint, seller) {
        Ok(()) => {},
        Err(e) => {
            return Err(e);
        },
    }
    if config.paused {
        return Err(SocialFiError::ContractPaused);
    }
    if offer.is_expired(now) {
        return Err(SocialFiError::OfferNotFound);
    }
    nft.owner = offer.buyer;
    let payment: u64 = escrow_release(escrow_balance, rent_exempt);
    Ok(
        OfferSettled {
            accepted: OfferAccepted {
                seller,
                buyer: offer.buyer,
                listing,
                amount: offer.amount,
                timestamp: now,
            },
            payment,
        },
    )
}

// ==================== Cancel Offer ====================

/// Everything the withdrawal of an offer yields.
#[derive(Clone, Copy, Debug, PartialEq, Eq)]
pub struct OfferWithdrawn {
    pub cancelled: OfferCancelled,
    /// What the escrow owes the buyer.
    pub refund: u64,
}

/// Withdraws `offer` on behalf of `buyer`, run out or not.
///
/// Anyone but the offer's buyer is rejected with `Unauthorized`. On success
/// the escrow owes the buyer its balance above the rent-exempt minimum.
pub fn cancel_offer(
    offer: &Offer,
    buyer: Address,
    escrow_balance: u64,
    rent_exempt: u64,
    now: i64,
) -> (r: Result<OfferWithdrawn, SocialFiError>)
    ensures
        offer.buyer != buyer ==> r == Err::<OfferWithdrawn, SocialFiError>(
            SocialFiError::Unauthorized,
        ),
        offer.buyer == buyer ==> r == Ok::<OfferWithdrawn, SocialFiError>(
            (OfferWithdrawn {
                cancelled: OfferCancelled {
                    buyer,
                    listing: offer.listing,
                    amount: offer.amount,
                    timestamp: now,
                },
                refund: escrow_payout(escrow_balance, rent_exempt),
            }),
        ),
{
    if offer.buyer != buyer {
        return Err(SocialFiError::Unauthorized);
    }
    let refund: u64 = escrow_release(escrow_balance, rent_exempt);
    Ok(
        OfferWithdrawn {
            cancelled: OfferCancelled {
                buyer,
                listing: offer.listing,
                amount: offer.amount,
                timestamp: now,
            },
            refund,
        },
    )
}

// ==================== Cancel Listing ====================

/// Withdraws a listing on behalf of `seller`, who must own the username and
/// be the listing's seller; anyone else is rejected with
/// `NotUsernameOwner`.
pub fn cancel_listing(
    nft: &UsernameNFT,
    listing_record: &Listing,
    listing: Address,
    seller: Address,
    now: i64,
) -> (r: Result<ListingCancelled, SocialFiError>)
    ensures
        nft.owner != seller || listing_record.seller != seller ==> r == Err::<
            ListingCancelled,
            SocialFiError,
        >(SocialFiError::NotUsernameOwner),
        nft.owner == seller && listing_record.seller == seller ==> r == Ok::<
            ListingCancelled,
            SocialFiError,
        >(
            (ListingCancelled {
                seller,
                username: listing_record.username,
                listing,
                timestamp: now,
            }),
        ),
{
    if nft.owner != seller {
        return Err(SocialFiError::NotUsernameOwner);
    }
    if listing_record.seller != seller {
        return Err(SocialFiError::NotUsernameOwner);
    }
    Ok(
        ListingCancelled {
            seller,
            username: listing_record.username.clone(),
            listing,
            timestamp: now,
        },
    )
}

} // verus!
