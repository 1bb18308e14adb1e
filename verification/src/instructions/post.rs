//! Posts and their minting as tokens.

use vstd::prelude::*;
use crate::address::Address;
use crate::constants::{MAX_NONCE_LENGTH, MAX_TITLE_LENGTH, MAX_URI_LENGTH};
use crate::errors::SocialFiError;
use crate::events::PostMinted;
use crate::state::{PlatformConfig, Post};
use crate::text::{byte_len, text_byte_len};

verus! {

// ==================== Create Post ====================

/// Why a post is not created, if it is not. The checks apply in this order:
/// platform paused; content address too long; nonce too long.
pub open spec fn post_rejection(config: PlatformConfig, nonce: Seq<char>, uri: Seq<char>) -> Option<
    SocialFiError,
> {
    if config.paused {
        Some(SocialFiError::ContractPaused)
    } else if byte_len(uri) > MAX_URI_LENGTH || byte_len(nonce) > MAX_NONCE_LENGTH {
        Some(SocialFiError::MetadataUriTooLong)
    } else {
        None
    }
}

/// Creates a post of `author` that points at `uri`; the nonce tells the
/// author's posts apart. A new post is not minted.
pub fn create_post(
    config: &PlatformConfig,
    author: Address,
    nonce: String,
    uri: String,
    now: i64,
    bump: u8,
) -> (r: Result<Post, SocialFiError>)
    ensures
        match post_rejection(*config, nonce@, uri@) {
            Some(e) => r == Err::<Post, SocialFiError>(e),
            None => r == Ok::<Post, SocialFiError>(
                (Post { author, uri, nonce, mint: None, created_at: now, bump }),
            ),
        },
{
    if config.paused {
        return Err(SocialFiError::ContractPaused);
    }
    if text_byte_len(uri.as_str()) > MAX_URI_LENGTH {
        return Err(SocialFiError::MetadataUriTooLong);
    }
    if text_byte_len(nonce.as_str()) > MAX_NONCE_LENGTH {
        return Err(SocialFiError::MetadataUriTooLong);
    }
    Ok(Post { author, uri, nonce, mint: None, created_at: now, bump })
}

// ==================== Mint Post ====================

/// Why a post is not minted, if it is not. The checks apply in this order:
/// minted before; token name too long.
pub open spec fn post_mint_rejection(post: Post, title: Seq<char>) -> Option<SocialFiError> {
    if post.mint is Some {
        Some(SocialFiError::PostAlreadyMinted)
    } else if byte_len(title) > MAX_TITLE_LENGTH {
        Some(SocialFiError::UsernameTooLong)
    } else {
        None
    }
}

/// Records that `post`, whose record identity is `post_id`, was minted as
/// the token `mint` under the name `title`. On rejection nothing changes.
pub fn mint_post(post: &mut Post, post_id: Address, mint: Address, title: &str, now: i64) -> (r:
    Result<PostMinted, SocialFiError>)
    ensures
        match post_mint_rejection(*old(post), title@) {
            Some(e) => r == Err::<PostMinted, SocialFiError>(e) && *final(post) == *old(post),
            None => r == Ok::<PostMinted, SocialFiError>(
                (PostMinted {
                    author: old(post).author,
                    uri: old(post).uri,
                    mint,
                    post: post_id,
                    timestamp: now,
                }),
            ) && *final(post) == (Post { mint: Some(mint), ..*old(post) }),
        },
{
    if post.mint.is_some() {
        return Err(SocialFiError::PostAlreadyMinted);
    }
    if text_byte_len(title) > MAX_TITLE_LENGTH {
        return Err(SocialFiError::UsernameTooLong);
    }
    post.mint = Some(mint);
    Ok(PostMinted { author: post.author, uri: post.uri.clone(), mint, post: post_id, timestamp: now })
}

} // verus!
