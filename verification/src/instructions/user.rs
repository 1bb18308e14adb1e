//! Profiles and tips.

use vstd::prelude::*;
use crate::address::Address;
use crate::constants::{MAX_USERNAME_LENGTH, REFERRAL_CODE_BYTES};
use crate::errors::SocialFiError;
use crate::events::{TipSent, UserInitialized};
use crate::state::UserProfile;
use crate::text::{byte_len, is_profile_name, profile_name_char, text_byte_len};

verus! {

/// The Base58 text of a byte string, in the Bitcoin alphabet.
pub uninterp spec fn base58_encoding(bytes: Seq<u8>) -> Seq<char>;

/// `bs58::encode(bytes).into_string()`: the Base58 text of `bytes` in the
/// crate's default (Bitcoin) alphabet, without a checksum. The encoding is
/// not spelled out here; the result is taken to be a fixed function of the
/// bytes.
#[verifier::external_body]
fn base58_encode(bytes: &[u8]) -> (text: String)
    ensures
        text@ == base58_encoding(bytes@),
{
    bs58::encode(bytes).into_string()
}

// ==================== Initialize User ====================

/// The referral code of an identity: the Base58 text of its first six
/// bytes.
pub fn generate_referral_code(owner: &Address) -> (code: String)
    ensures
        code@ == base58_encoding(owner.bytes@.subrange(0, REFERRAL_CODE_BYTES as int)),
{
    let mut prefix: Vec<u8> = Vec::new();
    let mut i: usize = 0;
    while i < REFERRAL_CODE_BYTES
        invariant
            i <= REFERRAL_CODE_BYTES,
            prefix@ == owner.bytes@.subrange(0, i as int),
        decreases REFERRAL_CODE_BYTES - i,
    {
        prefix.push(owner.bytes[i]);
        proof {
            assert(prefix@ =~= owner.bytes@.subrange(0, i + 1));
        }
        i = i + 1;
    }
    base58_encode(prefix.as_slice())
}

/// Whether every character of `name` may stand in a profile name.
pub open spec fn profile_name_ok(name: Seq<char>) -> bool {
    forall|i: int| 0 <= i < name.len() ==> profile_name_char(#[trigger] name[i])
}

/// Why a profile is not created, if it is not: the name is longer than
/// `MAX_USERNAME_LENGTH` bytes, or holds a character other than letters,
/// digits and the underscore.
pub open spec fn profile_rejection(username: Seq<char>) -> Option<SocialFiError> {
    if byte_len(username) > MAX_USERNAME_LENGTH {
        Some(SocialFiError::UsernameTooLong)
    } else if !profile_name_ok(username) {
        Some(SocialFiError::InvalidUsername)
    } else {
        None
    }
}

/// A profile that has sent, received, posted and referred nothing yet.
pub open spec fn fresh_profile(
    owner: Address,
    username: String,
    referral_code: String,
    now: i64,
    bump: u8,
) -> UserProfile {
    UserProfile {
        owner,
        username,
        total_tips_sent: 0,
        total_tips_received: 0,
        posts_count: 0,
        followers_count: 0,
        following_count: 0,
        referral_code,
        referred_by: None,
        referrals_count: 0,
        created_at: now,
        bump,
    }
}

/// Builds the profile of `owner` around a referral code that was made
/// before.
pub fn new_profile(
    owner: Address,
    username: String,
    referral_code: String,
    now: i64,
    bump: u8,
) -> (profile: UserProfile)
    ensures
        profile == fresh_profile(owner, username, referral_code, now, bump),
{
    UserProfile {
        owner,
        username,
        total_tips_sent: 0,
        total_tips_received: 0,
        posts_count: 0,
        followers_count: 0,
        following_count: 0,
        referral_code,
        referred_by: None,
        referrals_count: 0,
        created_at: now,
        bump,
    }
}

/// Creates the profile of `user` under `username`.
///
/// The profile carries the referral code of the user's identity, that is
/// the Base58 text of its first six bytes.
pub fn initialize_user(user: Address, username: String, now: i64, bump: u8) -> (r: Result<
    (UserProfile, UserInitialized),
    SocialFiError,
>)
    ensures
        match profile_rejection(username@) {
            Some(e) => r == Err::<(UserProfile, UserInitialized), SocialFiError>(e),
            None => r is Ok && r->Ok_0.0.referral_code@ == base58_encoding(
                user.bytes@.subrange(0, REFERRAL_CODE_BYTES as int),
            ) && r->Ok_0.0 == fresh_profile(user, username, r->Ok_0.0.referral_code, now, bump)
                && r->Ok_0.1 == (UserInitialized { user, username, timestamp: now }),
        },
{
    if text_byte_len(username.as_str()) > MAX_USERNAME_LENGTH {
        return Err(SocialFiError::UsernameTooLong);
    }
    if !is_profile_name(username.as_str()) {
        return Err(SocialFiError::InvalidUsername);
    }
    let event = UserInitialized { user, username: username.clone(), timestamp: now };
    let referral_code: String = generate_referral_code(&user);
    let profile: UserProfile = new_profile(user, username, referral_code, now, bump);
    Ok((profile, event))
}

// ==================== Send Tip ====================

/// Why a tip is rejected, if it is. The checks apply in this order: amount
/// zero; sender and recipient the same; a total out of range.
pub open spec fn tip_rejection(
    sender: UserProfile,
    recipient: UserProfile,
    amount: u64,
) -> Option<SocialFiError> {
    if amount == 0 {
        Some(SocialFiError::InvalidAmount)
    } else if sender.owner == recipient.owner {
        Some(SocialFiError::CannotTipSelf)
    } else if sender.total_tips_sent + amount > u64::MAX || recipient.total_tips_received + amount
        > u64::MAX {
        Some(SocialFiError::ArithmeticOverflow)
    } else {
        None
    }
}

/// Records a tip of `amount` from the owner of `sender_profile` to the
/// owner of `recipient_profile`.
///
/// On success both running totals grow by `amount`, and the receipt names
/// the amount that the sender owes the recipient. On rejection nothing
/// changes.
pub fn send_tip(
    sender_profile: &mut UserProfile,
    recipient_profile: &mut UserProfile,
    amount: u64,
    now: i64,
) -> (r: Result<TipSent, SocialFiError>)
    ensures
        match tip_rejection(*old(sender_profile), *old(recipient_profile), amount) {
            Some(e) => r == Err::<TipSent, SocialFiError>(e) && *final(sender_profile) == *old(
                sender_profile,
            ) && *final(recipient_profile) == *old(recipient_profile),
            None => r == Ok::<TipSent, SocialFiError>(
                (TipSent {
                    sender: old(sender_profile).owner,
                    recipient: old(recipient_profile).owner,
                    amount,
                    timestamp: now,
                }),
            ) && *final(sender_profile) == (UserProfile {
                total_tips_sent: (old(sender_profile).total_tips_sent + amount) as u64,
                ..*old(sender_profile)
            }) && *final(recipient_profile) == (UserProfile {
                total_tips_received: (old(recipient_profile).total_tips_received + amount) as u64,
                ..*old(recipient_profile)
            }),
        },
{
    if amount == 0 {
        return Err(SocialFiError::InvalidAmount);
    }
    if sender_profile.owner == recipient_profile.owner {
        return Err(SocialFiError::CannotTipSelf);
    }
    let sent: u64 = match sender_profile.total_tips_sent.checked_add(amount) {
        Some(v) => v,
        None => {
            return Err(SocialFiError::ArithmeticOverflow);
        },
    };
    let received: u64 = match recipient_profile.total_tips_received.checked_add(amount) {
        Some(v) => v,
        None => {
            return Err(SocialFiError::ArithmeticOverflow);
        },
    };
    sender_profile.total_tips_sent = sent;
    recipient_profile.total_tips_received = received;
    Ok(
        TipSent {
            sender: sender_profile.owner,
            recipient: recipient_profile.owner,
            amount,
            timestamp: now,
        },
    )
}

} // verus!
