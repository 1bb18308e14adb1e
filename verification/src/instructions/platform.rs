//! The platform-wide switches and their administration.

use vstd::prelude::*;
use crate::address::Address;
use crate::constants::{DEFAULT_MIN_LIQUIDITY_BPS, MAX_MIN_LIQUIDITY_BPS};
use crate::errors::SocialFiError;
use crate::state::PlatformConfig;

verus! {

// ==================== Initialize Platform ====================

/// The configuration a platform starts with: not paused, and the default
/// reserve requirement.
pub fn initialize_platform(admin: Address, fee_collector: Address, bump: u8) -> (config:
    PlatformConfig)
    ensures
        config == (PlatformConfig {
            admin,
            fee_collector,
            paused: false,
            min_liquidity_bps: DEFAULT_MIN_LIQUIDITY_BPS,
            bump,
        }),
{
    PlatformConfig {
        admin,
        fee_collector,
        paused: false,
        min_liquidity_bps: DEFAULT_MIN_LIQUIDITY_BPS,
        bump,
    }
}

// ==================== Update Platform ====================

/// Pauses the platform. Only the admin may; anyone else is rejected with
/// `Unauthorized` and nothing changes.
pub fn pause_platform(config: &mut PlatformConfig, caller: Address) -> (r: Result<
    (),
    SocialFiError,
>)
    ensures
        caller != old(config).admin ==> r == Err::<(), SocialFiError>(SocialFiError::Unauthorized)
            && *final(config) == *old(config),
        caller == old(config).admin ==> r == Ok::<(), SocialFiError>(()) && *final(config) == (
        PlatformConfig { paused: true, ..*old(config) }),
{
    if caller != config.admin {
        return Err(SocialFiError::Unauthorized);
    }
    config.paused = true;
    Ok(())
}

/// Lifts the pause. Only the admin may; anyone else is rejected with
/// `Unauthorized` and nothing changes.
pub fn unpause_platform(config: &mut PlatformConfig, caller: Address) -> (r: Result<
    (),
    SocialFiError,
>)
    ensures
        caller != old(config).admin ==> r == Err::<(), SocialFiError>(SocialFiError::Unauthorized)
            && *final(config) == *old(config),
        caller == old(config).admin ==> r == Ok::<(), SocialFiError>(()) && *final(config) == (
        PlatformConfig { paused: false, ..*old(config) }),
{
    if caller != config.admin {
        return Err(SocialFiError::Unauthorized);
    }
    config.paused = false;
    Ok(())
}

/// Hands the platform to `new_admin`. Only the admin may; anyone else is
/// rejected with `Unauthorized` and nothing changes.
pub fn update_admin(config: &mut PlatformConfig, caller: Address, new_admin: Address) -> (r:
    Result<(), SocialFiError>)
    ensures
        caller != old(config).admin ==> r == Err::<(), SocialFiError>(SocialFiError::Unauthorized)
            && *final(config) == *old(config),
        caller == old(config).admin ==> r == Ok::<(), SocialFiError>(()) && *final(config) == (
        PlatformConfig { admin: new_admin, ..*old(config) }),
{
    if caller != config.admin {
        return Err(SocialFiError::Unauthorized);
    }
    config.admin = new_admin;
    Ok(())
}

/// Names a new fee collector. Only the admin may; anyone else is rejected
/// with `Unauthorized` and nothing changes.
pub fn update_fee_collector(
    config: &mut PlatformConfig,
    caller: Address,
    new_fee_collector: Address,
) -> (r: Result<(), SocialFiError>)
    ensures
        caller != old(config).admin ==> r == Err::<(), SocialFiError>(SocialFiError::Unauthorized)
            && *final(config) == *old(config),
        caller == old(config).admin ==> r == Ok::<(), SocialFiError>(()) && *final(config) == (
        PlatformConfig { fee_collector: new_fee_collector, ..*old(config) }),
{
    if caller != config.admin {
        return Err(SocialFiError::Unauthorized);
    }
    config.fee_collector = new_fee_collector;
    Ok(())
}

/// Sets the reserve requirement, in basis points. Only the admin may
/// (`Unauthorized`), and the requirement may not exceed
/// `MAX_MIN_LIQUIDITY_BPS` (`InvalidAmount`). On rejection nothing changes.
pub fn update_min_liquidity(
    config: &mut PlatformConfig,
    caller: Address,
    new_min_liquidity_bps: u64,
) -> (r: Result<(), SocialFiError>)
    ensures
        caller != old(config).admin ==> r == Err::<(), SocialFiError>(SocialFiError::Unauthorized)
            && *final(config) == *old(config),
        caller == old(config).admin && new_min_liquidity_bps > MAX_MIN_LIQUIDITY_BPS ==> r == Err::<
            (),
            SocialFiError,
        >(SocialFiError::InvalidAmount) && *final(config) == *old(config),
        caller == old(config).admin && new_min_liquidity_bps <= MAX_MIN_LIQUIDITY_BPS ==> r == Ok::<
            (),
            SocialFiError,
        >(()) && *final(config) == (PlatformConfig {
            min_liquidity_bps: new_min_liquidity_bps,
            ..*old(config)
        }),
{
    if caller != config.admin {
        return Err(SocialFiError::Unauthorized);
    }
    if new_min_liquidity_bps > MAX_MIN_LIQUIDITY_BPS {
        return Err(SocialFiError::InvalidAmount);
    }
    config.min_liquidity_bps = new_min_liquidity_bps;
    Ok(())
}

} // verus!
