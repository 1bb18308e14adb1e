//! Subscription tiers and subscriptions.

use vstd::prelude::*;
use crate::address::Address;
use crate::constants::{
    MAX_DESCRIPTION_LENGTH, MAX_NAME_LENGTH, SECONDS_PER_DAY, SUBSCRIPTION_ACTIVE,
    SUBSCRIPTION_CANCELLED,
};
use crate::errors::SocialFiError;
use crate::events::{SubscriptionCancelled, SubscriptionTierCreated, UserSubscribed};
use crate::state::{Subscription, SubscriptionTier};
use crate::text::{byte_len, text_byte_len};

verus! {

// ==================== Create Subscription Tier ====================

/// The identifier given to a new tier. Every creator has one tier, with
/// identifier 1.
pub fn get_next_tier_id() -> (id: u64)
    ensures
        id == 1,
{
    1
}

/// Why a tier is not created, if it is not. The checks apply in this order:
/// name too long; description too long; price zero; duration zero.
pub open spec fn tier_rejection(
    name: Seq<char>,
    description: Seq<char>,
    price: u64,
    duration_days: u64,
) -> Option<SocialFiError> {
    if byte_len(name) > MAX_NAME_LENGTH {
        Some(SocialFiError::GroupNameTooLong)
    } else if byte_len(description) > MAX_DESCRIPTION_LENGTH {
        Some(SocialFiError::ProposalDescriptionTooLong)
    } else if price == 0 || duration_days == 0 {
        Some(SocialFiError::InvalidAmount)
    } else {
        None
    }
}

/// A tier without subscribers.
pub open spec fn opened_tier(
    creator: Address,
    name: String,
    description: String,
    price: u64,
    duration_days: u64,
    now: i64,
    bump: u8,
) -> SubscriptionTier {
    SubscriptionTier {
        creator,
        tier_id: 1,
        name,
        description,
        price,
        duration_days,
        subscriber_count: 0,
        created_at: now,
        bump,
    }
}

/// Opens a subscription tier of `creator`.
pub fn create_subscription_tier(
    creator: Address,
    name: String,
    description: String,
    price: u64,
    duration_days: u64,
    now: i64,
    bump: u8,
) -> (r: Result<(SubscriptionTier, SubscriptionTierCreated), SocialFiError>)
    ensures
        match tier_rejection(name@, description@, price, duration_days) {
            Some(e) => r == Err::<(SubscriptionTier, SubscriptionTierCreated), SocialFiError>(e),
            None => r == Ok::<(SubscriptionTier, SubscriptionTierCreated), SocialFiError>(
                (
                    opened_tier(creator, name, description, price, duration_days, now, bump),
                    SubscriptionTierCreated { creator, tier_id: 1, name, price, timestamp: now },
                ),
            ),
        },
{
    if text_byte_len(name.as_str()) > MAX_NAME_LENGTH {
        return Err(SocialFiError::GroupNameTooLong);
    }
    if text_byte_len(description.as_str()) > MAX_DESCRIPTION_LENGTH {
        return Err(SocialFiError::ProposalDescriptionTooLong);
    }
    if price == 0 {
        return Err(SocialFiError::InvalidAmount);
    }
    if duration_days == 0 {
        return Err(SocialFiError::InvalidAmount);
    }
    let tier_id: u64 = get_next_tier_id();
    let event = SubscriptionTierCreated {
        creator,
        tier_id,
        name: name.clone(),
        price,
        timestamp: now,
    };
    let tier = SubscriptionTier {
        creator,
        tier_id,
        name,
        description,
        price,
        duration_days,
        subscriber_count: 0,
        created_at: now,
        bump,
    };
    Ok((tier, event))
}

// ==================== Subscribe ====================

/// A number of seconds read as a signed 64-bit number: a value above
/// `i64::MAX` wraps around to a negative one.
pub open spec fn as_signed_seconds(seconds: int) -> int {
    if seconds <= i64::MAX {
        seconds
    } else {
        seconds - 0x1_0000_0000_0000_0000
    }
}

/// End date of a subscription of `duration_days` days that begins at `now`.
pub open spec fn subscription_end(duration_days: u64, now: i64) -> int {
    now + as_signed_seconds(duration_days * SECONDS_PER_DAY)
}

/// Why a subscription is not opened, if it is not: the duration in seconds,
/// the end date or the subscriber count leaves its range.
pub open spec fn subscribe_rejection(tier: SubscriptionTier, now: i64) -> Option<SocialFiError> {
    if tier.duration_days * SECONDS_PER_DAY > u64::MAX || subscription_end(tier.duration_days, now)
        > i64::MAX || subscription_end(tier.duration_days, now) < i64::MIN
        || tier.subscriber_count + 1 > u64::MAX {
        Some(SocialFiError::ArithmeticOverflow)
    } else {
        None
    }
}

/// The subscription of `subscriber` to `tier`, begun at `now`.
pub open spec fn opened_subscription(
    tier: SubscriptionTier,
    subscriber: Address,
    now: i64,
    bump: u8,
) -> Subscription {
    Subscription {
        subscriber,
        creator: tier.creator,
        tier_id: tier.tier_id,
        start_date: now,
        end_date: subscription_end(tier.duration_days, now) as i64,
        status: SUBSCRIPTION_ACTIVE,
        auto_renew: false,
        created_at: now,
        bump,
    }
}

/// What opening `subscription` reports.
pub open spec fn subscribed_event(subscription: Subscription) -> UserSubscribed {
    UserSubscribed {
        subscriber: subscription.subscriber,
        creator: subscription.creator,
        tier_id: subscription.tier_id,
        start_date: subscription.start_date,
        end_date: subscription.end_date,
        timestamp: subscription.created_at,
    }
}

/// Subscribes `subscriber` to `tier` for one period beginning at `now`.
///
/// On success the tier counts one subscriber more, and the subscriber owes
/// the tier's price to its creator. On rejection nothing changes.
pub fn subscribe(tier: &mut SubscriptionTier, subscriber: Address, now: i64, bump: u8) -> (r:
    Result<(Subscription, UserSubscribed), SocialFiError>)
    ensures
        match subscribe_rejection(*old(tier), now) {
            Some(e) => r == Err::<(Subscription, UserSubscribed), SocialFiError>(e) && *final(tier)
                == *old(tier),
            None => r == Ok::<(Subscription, UserSubscribed), SocialFiError>(
                (
                    opened_subscription(*old(tier), subscriber, now, bump),
                    subscribed_event(opened_subscription(*old(tier), subscriber, now, bump)),
                ),
            ) && *final(tier) == (SubscriptionTier {
                subscriber_count: (old(tier).subscriber_count + 1) as u64,
                ..*old(tier)
            }),
        },
{
    let duration_seconds: u64 = match tier.duration_days.checked_mul(SECONDS_PER_DAY as u64) {
        Some(v) => v,
        None => {
            return Err(SocialFiError::ArithmeticOverflow);
        },
    };
    let signed_seconds: i64 = if duration_seconds <= i64::MAX as u64 {
        duration_seconds as i64
    } else {
        ((duration_seconds - 0x8000_0000_0000_0000u64) as i64) + i64::MIN
    };
    let end_date: i64 = match now.checked_add(signed_seconds) {
        Some(v) => v,
        None => {
            return Err(SocialFiError::ArithmeticOverflow);
        },
    };
    let subscriber_count: u64 = match tier.subscriber_count.checked_add(1) {
        Some(v) => v,
        None => {
            return Err(SocialFiError::ArithmeticOverflow);
        },
    };
    tier.subscriber_count = subscriber_count;
    let subscription = Subscription {
        subscriber,
        creator: tier.creator,
        tier_id: tier.tier_id,
        start_date: now,
        end_date,
        status: SUBSCRIPTION_ACTIVE,
        auto_renew: false,
        created_at: now,
        bump,
    };
    let event = UserSubscribed {
        subscriber,
        creator: tier.creator,
        tier_id: tier.tier_id,
        start_date: now,
        end_date,
        timestamp: now,
    };
    Ok((subscription, event))
}

// ==================== Cancel Subscription ====================

/// Cancels a running subscription. One that is not running at `now` is
/// rejected with `SubscriptionInactive` and stays as it is.
pub fn cancel_subscription(subscription: &mut Subscription, now: i64) -> (r: Result<
    SubscriptionCancelled,
    SocialFiError,
>)
    ensures
        !(old(subscription).status == SUBSCRIPTION_ACTIVE && now < old(subscription).end_date)
            ==> r == Err::<SubscriptionCancelled, SocialFiError>(
            SocialFiError::SubscriptionInactive,
        ) && *final(subscription) == *old(subscription),
        old(subscription).status == SUBSCRIPTION_ACTIVE && now < old(subscription).end_date ==> r
            == Ok::<SubscriptionCancelled, SocialFiError>(
            (SubscriptionCancelled {
                subscriber: old(subscription).subscriber,
                creator: old(subscription).creator,
                tier_id: old(subscription).tier_id,
                timestamp: now,
            }),
        ) && *final(subscription) == (Subscription {
            status: SUBSCRIPTION_CANCELLED,
            auto_renew: false,
            ..*old(subscription)
        }),
{
    if !subscription.is_active(now) {
        return Err(SocialFiError::SubscriptionInactive);
    }
    subscription.status = SUBSCRIPTION_CANCELLED;
    subscription.auto_renew = false;
    Ok(
        SubscriptionCancelled {
            subscriber: subscription.subscriber,
            creator: subscription.creator,
            tier_id: subscription.tier_id,
            timestamp: now,
        },
    )
}

} // verus!
