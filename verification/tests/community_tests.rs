use social_fi_contract::address::Address;
use social_fi_contract::errors::SocialFiError;
use social_fi_contract::events::{
    GroupCreated, MemberJoined, MemberKicked, MemberRoleUpdated, PostMinted, SubscriptionCancelled,
    SubscriptionTierCreated, UserSubscribed,
};
use social_fi_contract::instructions::group::{
    create_group, join_group, kick_member, update_member_role,
};
use social_fi_contract::instructions::post::{create_post, mint_post};
use social_fi_contract::instructions::social::{
    comment_on, create_comment, create_repost, follow_user, like_post, unfollow_user,
};
use social_fi_contract::instructions::subscription::{
    cancel_subscription, create_subscription_tier, get_next_tier_id, subscribe,
};
use social_fi_contract::instructions::user::initialize_user;
use social_fi_contract::state::{
    Comment, Follow, Group, GroupMember, Like, PlatformConfig, Post, Repost, Subscription,
    SubscriptionTier,
};

fn pk(n: u8) -> Address {
    Address::new([n; 32])
}

fn cfg(paused: bool) -> PlatformConfig {
    PlatformConfig { admin: pk(200), fee_collector: pk(201), paused, min_liquidity_bps: 1000, bump: 1 }
}

const DAY: i64 = 86_400;

#[test]
fn tier_creation() {
    assert_eq!(get_next_tier_id(), 1);
    let (tier, event) = create_subscription_tier(
        pk(1),
        String::from("Gold"),
        String::from("Everything"),
        5_000,
        30,
        77,
        4,
    )
    .unwrap();
    assert_eq!(
        tier,
        SubscriptionTier {
            creator: pk(1),
            tier_id: 1,
            name: String::from("Gold"),
            description: String::from("Everything"),
            price: 5_000,
            duration_days: 30,
            subscriber_count: 0,
            created_at: 77,
            bump: 4,
        }
    );
    assert_eq!(
        event,
        SubscriptionTierCreated {
            creator: pk(1),
            tier_id: 1,
            name: String::from("Gold"),
            price: 5_000,
            timestamp: 77,
        }
    );
    let attempt = |name: &str, text: &str, price: u64, days: u64| {
        create_subscription_tier(pk(1), String::from(name), String::from(text), price, days, 0, 0)
            .map(|_| ())
    };
    assert_eq!(attempt(&"n".repeat(51), &"d".repeat(501), 0, 0), Err(SocialFiError::GroupNameTooLong));
    assert_eq!(
        attempt(&"n".repeat(50), &"d".repeat(501), 0, 0),
        Err(SocialFiError::ProposalDescriptionTooLong)
    );
    assert_eq!(attempt("n", "d", 0, 1), Err(SocialFiError::InvalidAmount));
    assert_eq!(attempt("n", "d", 1, 0), Err(SocialFiError::InvalidAmount));
    assert_eq!(attempt(&"n".repeat(50), &"d".repeat(500), 1, 1), Ok(()));
}

fn gold() -> SubscriptionTier {
    create_subscription_tier(pk(1), String::from("Gold"), String::from("All"), 5_000, 30, 0, 0)
        .unwrap()
        .0
}

#[test]
fn subscribe_and_cancel() {
    let mut tier = gold();
    let (mut subscription, event) = subscribe(&mut tier, pk(2), 1_000, 6).unwrap();
    assert_eq!(
        subscription,
        Subscription {
            subscriber: pk(2),
            creator: pk(1),
            tier_id: 1,
            start_date: 1_000,
            end_date: 1_000 + 30 * DAY,
            status: 0,
            auto_renew: false,
            created_at: 1_000,
            bump: 6,
        }
    );
    assert_eq!(
        event,
        UserSubscribed {
            subscriber: pk(2),
            creator: pk(1),
            tier_id: 1,
            start_date: 1_000,
            end_date: 1_000 + 30 * DAY,
            timestamp: 1_000,
        }
    );
    assert_eq!(tier.subscriber_count, 1);
    assert!(subscription.is_active(1_000 + 30 * DAY - 1));
    assert!(!subscription.is_active(1_000 + 30 * DAY));

    let untouched = subscription;
    assert_eq!(
        cancel_subscription(&mut subscription, 1_000 + 30 * DAY),
        Err(SocialFiError::SubscriptionInactive)
    );
    assert_eq!(subscription, untouched);
    assert_eq!(
        cancel_subscription(&mut subscription, 2_000),
        Ok(SubscriptionCancelled { subscriber: pk(2), creator: pk(1), tier_id: 1, timestamp: 2_000 })
    );
    assert_eq!(subscription.status, 2);
    assert!(!subscription.is_active(2_000));
    assert_eq!(
        cancel_subscription(&mut subscription, 2_000),
        Err(SocialFiError::SubscriptionInactive)
    );
}

#[test]
fn subscribe_overflows() {
    let mut crowded = SubscriptionTier { subscriber_count: u64::MAX, ..gold() };
    assert_eq!(subscribe(&mut crowded, pk(2), 0, 0).map(|_| ()), Err(SocialFiError::ArithmeticOverflow));
    let mut endless = SubscriptionTier { duration_days: u64::MAX / 86_400 + 1, ..gold() };
    assert_eq!(subscribe(&mut endless, pk(2), 0, 0).map(|_| ()), Err(SocialFiError::ArithmeticOverflow));
    assert_eq!(endless.subscriber_count, 0);
    let mut late = gold();
    assert_eq!(
        subscribe(&mut late, pk(2), i64::MAX - 30 * DAY + 1, 0).map(|_| ()),
        Err(SocialFiError::ArithmeticOverflow)
    );
    // a duration above i64::MAX seconds reads as negative
    let days = (i64::MAX as u64) / 86_400 + 1;
    let mut wrapped = SubscriptionTier { duration_days: days, ..gold() };
    let (subscription, _) = subscribe(&mut wrapped, pk(2), 0, 0).unwrap();
    let seconds = days as i128 * 86_400;
    assert_eq!(subscription.end_date as i128, seconds - (1i128 << 64));
}

#[test]
fn group_founding() {
    let founded = create_group(
        pk(50),
        pk(1),
        String::from("Builders"),
        String::from("We build"),
        1,
        1,
        Some(900),
        10,
        3,
        4,
    )
    .unwrap();
    assert_eq!(
        founded.group,
        Group {
            id: pk(50),
            name: String::from("Builders"),
            description: String::from("We build"),
            creator: pk(1),
            privacy: 1,
            entry_requirement: 1,
            entry_price: Some(900),
            token_mint: None,
            nft_collection: None,
            member_count: 1,
            post_count: 0,
            created_at: 10,
            bump: 3,
        }
    );
    assert_eq!(
        founded.owner,
        GroupMember { group: pk(50), wallet: pk(1), role: 0, joined_at: 10, banned: false, bump: 4 }
    );
    assert_eq!(
        founded.created,
        GroupCreated {
            group: pk(50),
            creator: pk(1),
            name: String::from("Builders"),
            privacy: 1,
            timestamp: 10,
        }
    );
    assert_eq!(founded.joined, MemberJoined { group: pk(50), member: pk(1), role: 0, timestamp: 10 });

    let attempt = |name: &str, text: &str, privacy: u8, entry: u8| {
        create_group(pk(50), pk(1), String::from(name), String::from(text), privacy, entry, None, 0, 0, 0)
            .map(|_| ())
    };
    assert_eq!(attempt(&"n".repeat(51), &"d".repeat(501), 3, 4), Err(SocialFiError::GroupNameTooLong));
    assert_eq!(
        attempt("n", &"d".repeat(501), 3, 4),
        Err(SocialFiError::ProposalDescriptionTooLong)
    );
    assert_eq!(attempt("n", "d", 3, 4), Err(SocialFiError::InvalidGroupPrivacy));
    assert_eq!(attempt("n", "d", 2, 4), Err(SocialFiError::InvalidEntryRequirement));
    assert_eq!(attempt("n", "d", 2, 3), Ok(()));
}

fn builders(entry_requirement: u8, entry_price: Option<u64>) -> Group {
    create_group(
        pk(50),
        pk(1),
        String::from("Builders"),
        String::from("We build"),
        0,
        entry_requirement,
        entry_price,
        10,
        3,
        4,
    )
    .unwrap()
    .group
}

#[test]
fn joining_a_group() {
    let mut paid = builders(1, Some(900));
    let joined = join_group(&mut paid, pk(2), 20, 5).unwrap();
    assert_eq!(
        joined.member,
        GroupMember { group: pk(50), wallet: pk(2), role: 3, joined_at: 20, banned: false, bump: 5 }
    );
    assert_eq!(joined.joined, MemberJoined { group: pk(50), member: pk(2), role: 3, timestamp: 20 });
    assert_eq!(joined.fee, Some(900));
    assert_eq!(paid.member_count, 2);

    assert_eq!(join_group(&mut builders(1, None), pk(2), 20, 5).unwrap().fee, None);
    assert_eq!(join_group(&mut builders(0, Some(900)), pk(2), 20, 5).unwrap().fee, None);
    assert_eq!(join_group(&mut builders(2, Some(900)), pk(2), 20, 5).unwrap().fee, None);

    let mut full = Group { member_count: u64::MAX, ..builders(0, None) };
    assert_eq!(join_group(&mut full, pk(2), 20, 5), Err(SocialFiError::ArithmeticOverflow));
    assert_eq!(full.member_count, u64::MAX);
}

fn member(wallet: u8, role: u8) -> GroupMember {
    GroupMember { group: pk(50), wallet: pk(wallet), role, joined_at: 0, banned: false, bump: 0 }
}

#[test]
fn member_permissions() {
    assert!(member(1, 0).can_manage_members());
    assert!(member(1, 1).can_manage_members());
    assert!(!member(1, 2).can_manage_members());
    assert!(!member(1, 3).can_manage_members());
    assert!(member(1, 0).can_moderate());
    assert!(member(1, 2).can_moderate());
    assert!(!member(1, 3).can_moderate());
}

#[test]
fn changing_roles() {
    let mut target = member(2, 3);
    assert_eq!(
        update_member_role(&member(1, 1), &mut target, 2, 30),
        Ok(MemberRoleUpdated {
            group: pk(50),
            member: pk(2),
            old_role: 3,
            new_role: 2,
            updated_by: pk(1),
            timestamp: 30,
        })
    );
    assert_eq!(target.role, 2);
    assert_eq!(
        update_member_role(&member(1, 2), &mut target, 1, 30),
        Err(SocialFiError::InsufficientPermissions)
    );
    assert_eq!(
        update_member_role(&member(1, 0), &mut target, 0, 30),
        Err(SocialFiError::InsufficientPermissions)
    );
    assert_eq!(
        update_member_role(&member(1, 0), &mut target, 4, 30),
        Err(SocialFiError::InsufficientPermissions)
    );
    assert_eq!(
        update_member_role(&member(2, 0), &mut target, 4, 30),
        Err(SocialFiError::InsufficientPermissions)
    );
    assert_eq!(
        update_member_role(&member(2, 0), &mut target, 1, 30),
        Err(SocialFiError::CannotActOnSelf)
    );
    assert_eq!(target, member(2, 2));
}

#[test]
fn kicking_members() {
    let mut group = Group { member_count: 2, ..builders(0, None) };
    assert_eq!(
        kick_member(&mut group, &member(1, 3), &member(2, 3), 40),
        Err(SocialFiError::InsufficientPermissions)
    );
    assert_eq!(
        kick_member(&mut group, &member(1, 1), &member(1, 1), 40),
        Err(SocialFiError::CannotActOnSelf)
    );
    assert_eq!(group.member_count, 2);
    assert_eq!(
        kick_member(&mut group, &member(1, 1), &member(2, 0), 40),
        Ok(MemberKicked { group: pk(50), member: pk(2), kicked_by: pk(1), timestamp: 40 })
    );
    assert_eq!(group.member_count, 1);
    let mut empty = Group { member_count: 0, ..builders(0, None) };
    assert_eq!(
        kick_member(&mut empty, &member(1, 0), &member(2, 3), 40),
        Err(SocialFiError::ArithmeticUnderflow)
    );
}

#[test]
fn posts() {
    let post = create_post(&cfg(false), pk(1), String::from("n-1"), String::from("ar://x"), 9, 2).unwrap();
    assert_eq!(
        post,
        Post {
            author: pk(1),
            uri: String::from("ar://x"),
            nonce: String::from("n-1"),
            mint: None,
            created_at: 9,
            bump: 2,
        }
    );
    let attempt = |paused: bool, nonce: &str, uri: &str| {
        create_post(&cfg(paused), pk(1), String::from(nonce), String::from(uri), 0, 0).map(|_| ())
    };
    assert_eq!(attempt(true, &"n".repeat(17), &"u".repeat(201)), Err(SocialFiError::ContractPaused));
    assert_eq!(attempt(false, "n", &"u".repeat(201)), Err(SocialFiError::MetadataUriTooLong));
    assert_eq!(attempt(false, &"n".repeat(17), "u"), Err(SocialFiError::MetadataUriTooLong));
    assert_eq!(attempt(false, &"n".repeat(16), &"u".repeat(200)), Ok(()));

    let mut minted = post.clone();
    assert_eq!(
        mint_post(&mut minted, pk(60), pk(70), &"t".repeat(33), 11),
        Err(SocialFiError::UsernameTooLong)
    );
    assert_eq!(minted, post);
    assert_eq!(
        mint_post(&mut minted, pk(60), pk(70), &"t".repeat(32), 11),
        Ok(PostMinted {
            author: pk(1),
            uri: String::from("ar://x"),
            mint: pk(70),
            post: pk(60),
            timestamp: 11,
        })
    );
    assert_eq!(minted.mint, Some(pk(70)));
    assert_eq!(
        mint_post(&mut minted, pk(60), pk(71), "again", 12),
        Err(SocialFiError::PostAlreadyMinted)
    );
    assert_eq!(
        mint_post(&mut minted, pk(60), pk(71), &"t".repeat(33), 12),
        Err(SocialFiError::PostAlreadyMinted)
    );
    assert_eq!(minted.mint, Some(pk(70)));
}

#[test]
fn follows_saturate() {
    let mut a = initialize_user(pk(1), String::from("a"), 0, 0).unwrap().0;
    let mut b = initialize_user(pk(2), String::from("b"), 0, 0).unwrap().0;
    assert_eq!(
        follow_user(&mut a, &mut b, 5, 6),
        Follow { follower: pk(1), following: pk(2), created_at: 5, bump: 6 }
    );
    assert_eq!((a.following_count, a.followers_count), (1, 0));
    assert_eq!((b.following_count, b.followers_count), (0, 1));
    unfollow_user(&mut a, &mut b);
    unfollow_user(&mut a, &mut b);
    assert_eq!((a.following_count, b.followers_count), (0, 0));
    a.following_count = u64::MAX;
    b.followers_count = u64::MAX - 1;
    follow_user(&mut a, &mut b, 5, 6);
    assert_eq!((a.following_count, b.followers_count), (u64::MAX, u64::MAX));
}

#[test]
fn likes_and_reposts() {
    assert_eq!(like_post(pk(1), pk(60), 7, 8), Like { user: pk(1), post: pk(60), created_at: 7, bump: 8 });
    assert_eq!(
        create_repost(pk(1), pk(60), 7, 8),
        Repost { user: pk(1), original_post: pk(60), created_at: 7, bump: 8 }
    );
}

#[test]
fn comments() {
    assert_eq!(
        create_comment(pk(1), pk(60), String::from("  nice  "), 7, 8),
        Ok(Comment { author: pk(1), post: pk(60), content: String::from("  nice  "), created_at: 7, bump: 8 })
    );
    let attempt = |content: &str| create_comment(pk(1), pk(60), String::from(content), 0, 0).map(|_| ());
    assert_eq!(attempt(""), Err(SocialFiError::EmptyContent));
    assert_eq!(attempt(" \t\n "), Err(SocialFiError::EmptyContent));
    assert_eq!(attempt("\u{3000}"), Err(SocialFiError::EmptyContent));
    assert_eq!(attempt(" . "), Ok(()));
    assert_eq!(attempt(&"c".repeat(280)), Ok(()));
    assert_eq!(attempt(&"c".repeat(281)), Err(SocialFiError::CommentTooLong));
    assert_eq!(attempt(&" ".repeat(281)), Err(SocialFiError::CommentTooLong));
    // the decision alone, for either answer of the trimming
    assert_eq!(
        comment_on(pk(1), pk(60), String::from("x"), true, 0, 0),
        Err(SocialFiError::EmptyContent)
    );
    assert!(comment_on(pk(1), pk(60), String::from(""), false, 0, 0).is_ok());
    assert_eq!(
        comment_on(pk(1), pk(60), "c".repeat(281), false, 0, 0),
        Err(SocialFiError::CommentTooLong)
    );
}
