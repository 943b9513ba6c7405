use vstd::prelude::*;

use crate::constants::{MAX_NAME_LEN, MAX_URI_LEN};
use crate::error::ErrorCode;
use crate::instructions::check_in_business::refusal_result;
use crate::pubkey::Pubkey;
use crate::state::{Config, TouristSpot};
use crate::utils::{byte_len, utf8_len};

verus! {

/// The accounts of creating a tourist spot; `spot` is the new account.
#[derive(Debug)]
pub struct CreateTouristSpot {
    pub admin: Pubkey,
    pub config: Config,
    pub spot: TouristSpot,
}

/// The accounts of activating or deactivating a tourist spot.
#[derive(Debug)]
pub struct SetSpotActive {
    pub admin: Pubkey,
    pub config: Config,
    pub spot: TouristSpot,
}

/// Why creating a spot is refused, if it is, in the order the checks are made.
pub open spec fn create_spot_error(ctx: CreateTouristSpot, name: String, achievement_uri: String) -> Option<
    ErrorCode,
> {
    if ctx.config.admin != ctx.admin {
        Some(ErrorCode::Unauthorized)
    } else if utf8_len(name) > MAX_NAME_LEN {
        Some(ErrorCode::Overflow)
    } else if utf8_len(achievement_uri) > MAX_URI_LEN {
        Some(ErrorCode::Overflow)
    } else {
        None
    }
}

/// The administrator creates an active tourist spot, with no visitors yet.
/// A refused request changes no account.
pub fn handle_create_tourist_spot(
    ctx: &mut CreateTouristSpot,
    id: u64,
    name: String,
    latitude: i64,
    longitude: i64,
    radius: u32,
    base_xp_reward: u64,
    achievement_uri: String,
) -> (r: Result<(), ErrorCode>)
    ensures
        r == refusal_result(create_spot_error(*old(ctx), name, achievement_uri)),
        r is Err ==> *final(ctx) == *old(ctx),
        r is Ok ==> *final(ctx) == (CreateTouristSpot {
            spot: TouristSpot {
                id,
                authority: old(ctx).admin,
                name,
                latitude,
                longitude,
                radius,
                base_xp_reward,
                achievement_uri,
                total_visitors: 0,
                is_active: true,
            },
            ..*old(ctx)
        }),
{
    if !ctx.config.admin.equals(&ctx.admin) {
        return Err(ErrorCode::Unauthorized);
    }
    if byte_len(&name) > MAX_NAME_LEN {
        return Err(ErrorCode::Overflow);
    }
    if byte_len(&achievement_uri) > MAX_URI_LEN {
        return Err(ErrorCode::Overflow);
    }
    ctx.spot = TouristSpot {
        id,
        authority: ctx.admin,
        name,
        latitude,
        longitude,
        radius,
        base_xp_reward,
        achievement_uri,
        total_visitors: 0,
        is_active: true,
    };
    Ok(())
}

/// The administrator activates or deactivates a spot.
pub fn handle_set_spot_active(ctx: &mut SetSpotActive, active: bool) -> (r: Result<(), ErrorCode>)
    ensures
        old(ctx).config.admin != old(ctx).admin ==> r == Err::<(), ErrorCode>(
            ErrorCode::Unauthorized,
        ) && *final(ctx) == *old(ctx),
        old(ctx).config.admin == old(ctx).admin ==> r == Ok::<(), ErrorCode>(()) && *final(ctx) == (
        SetSpotActive { spot: TouristSpot { is_active: active, ..old(ctx).spot }, ..*old(ctx) }),
{
    if !ctx.config.admin.equals(&ctx.admin) {
        return Err(ErrorCode::Unauthorized);
    }
    ctx.spot.is_active = active;
    Ok(())
}

} // verus!
