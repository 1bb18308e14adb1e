//! Follows, likes, reposts and comments.

use vstd::prelude::*;
use crate::address::Address;
use crate::constants::MAX_COMMENT_LENGTH;
use crate::errors::SocialFiError;
use crate::state::{Comment, Follow, Like, Repost, UserProfile};
use crate::text::{byte_len, text_byte_len, trim, trimmed_text};

verus! {

// ==================== Follow User ====================

/// A counter one step up, staying at the top of its range.
pub open spec fn step_up(count: u64) -> u64 {
    if count == u64::MAX {
        count
    } else {
        (count + 1) as u64
    }
}

/// A counter one step down, staying at zero.
pub open spec fn step_down(count: u64) -> u64 {
    if count == 0 {
        count
    } else {
        (count - 1) as u64
    }
}

/// Records that the owner of `follower_profile` follows the owner of
/// `following_profile`. Both counters move one step up and saturate rather
/// than overflow.
pub fn follow_user(
    follower_profile: &mut UserProfile,
    following_profile: &mut UserProfile,
    now: i64,
    bump: u8,
) -> (follow: Follow)
    ensures
        follow == (Follow {
            follower: old(follower_profile).owner,
            following: old(following_profile).owner,
            created_at: now,
            bump,
        }),
        *final(follower_profile) == (UserProfile {
            following_count: step_up(old(follower_profile).following_count),
            ..*old(follower_profile)
        }),
        *final(following_profile) == (UserProfile {
            followers_count: step_up(old(following_profile).followers_count),
            ..*old(following_profile)
        }),
{
    follower_profile.following_count = follower_profile.following_count.saturating_add(1);
    following_profile.followers_count = following_profile.followers_count.saturating_add(1);
    Follow {
        follower: follower_profile.owner,
        following: following_profile.owner,
        created_at: now,
        bump,
    }
}

// ==================== Unfollow User ====================

/// Records that the owner of `follower_profile` no longer follows the
/// owner of `following_profile`. Both counters move one step down and stop
/// at zero.
pub fn unfollow_user(follower_profile: &mut UserProfile, following_profile: &mut UserProfile)
    ensures
        *final(follower_profile) == (UserProfile {
            following_count: step_down(old(follower_profile).following_count),
            ..*old(follower_profile)
        }),
        *final(following_profile) == (UserProfile {
            followers_count: step_down(old(following_profile).followers_count),
            ..*old(following_profile)
        }),
{
    follower_profile.following_count = follower_profile.following_count.saturating_sub(1);
    following_profile.followers_count = following_profile.followers_count.saturating_sub(1);
}

// ==================== Like Post ====================

/// The record of `user` liking `post` at `now`.
pub fn like_post(user: Address, post: Address, now: i64, bump: u8) -> (like: Like)
    ensures
        like == (Like { user, post, created_at: now, bump }),
{
    Like { user, post, created_at: now, bump }
}

// ==================== Repost ====================

/// The record of `user` reposting `original_post` at `now`.
pub fn create_repost(user: Address, original_post: Address, now: i64, bump: u8) -> (repost: Repost)
    ensures
        repost == (Repost { user, original_post, created_at: now, bump }),
{
    Repost { user, original_post, created_at: now, bump }
}

// ==================== Comment ====================

/// Why a comment is not created, if it is not: it is longer than
/// `MAX_COMMENT_LENGTH` bytes, or nothing is left of it once the white
/// space at both ends is taken away.
pub open spec fn comment_rejection(content: Seq<char>) -> Option<SocialFiError> {
    if byte_len(content) > MAX_COMMENT_LENGTH {
        Some(SocialFiError::CommentTooLong)
    } else if trimmed_text(content).len() == 0 {
        Some(SocialFiError::EmptyContent)
    } else {
        None
    }
}

/// Decides on a comment once its content has been trimmed:
/// `trimmed_is_empty` says whether nothing is left of the content without
/// the white space at both ends.
pub fn comment_on(
    author: Address,
    post: Address,
    content: String,
    trimmed_is_empty: bool,
    now: i64,
    bump: u8,
) -> (r: Result<Comment, SocialFiError>)
    ensures
        byte_len(content@) > MAX_COMMENT_LENGTH ==> r == Err::<Comment, SocialFiError>(
            SocialFiError::CommentTooLong,
        ),
        byte_len(content@) <= MAX_COMMENT_LENGTH && trimmed_is_empty ==> r == Err::<
            Comment,
            SocialFiError,
        >(SocialFiError::EmptyContent),
        byte_len(content@) <= MAX_COMMENT_LENGTH && !trimmed_is_empty ==> r == Ok::<
            Comment,
            SocialFiError,
        >((Comment { author, post, content, created_at: now, bump })),
{
    if text_byte_len(content.as_str()) > MAX_COMMENT_LENGTH {
        return Err(SocialFiError::CommentTooLong);
    }
    if trimmed_is_empty {
        return Err(SocialFiError::EmptyContent);
    }
    Ok(Comment { author, post, content, created_at: now, bump })
}

/// Creates a comment of `author` on `post`.
pub fn create_comment(author: Address, post: Address, content: String, now: i64, bump: u8) -> (r:
    Result<Comment, SocialFiError>)
    ensures
        match comment_rejection(content@) {
            Some(e) => r == Err::<Comment, SocialFiError>(e),
            None => r == Ok::<Comment, SocialFiError>(
                (Comment { author, post, content, created_at: now, bump }),
            ),
        },
{
    let trimmed_is_empty: bool = trim(content.as_str()).is_empty();
    comment_on(author, post, content, trimmed_is_empty, now, bump)
}

} // verus!
