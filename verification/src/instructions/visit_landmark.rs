use vstd::prelude::*;

use crate::constants::SPOT_XP_DEFAULT;
use crate::error::ErrorCode;
use crate::instructions::check_in_business::refusal_result;
use crate::location_proof::{
    location_message, location_message_of, location_proof_result, verify_location_proof,
};
use crate::pubkey::{is_zero_address, Pubkey};
use crate::state::{Config, GeoAchievement, Passport, TouristSpot};
use crate::utils::{apply_xp, credited};

verus! {

/// The accounts of a landmark visit: `spot` lives at `spot_key`, and
/// `achievement` is the freshly created record of this visit.
#[derive(Debug)]
pub struct VisitLandmark {
    pub user: Pubkey,
    pub config: Config,
    pub spot_key: Pubkey,
    pub spot: TouristSpot,
    pub passport: Passport,
    pub achievement: GeoAchievement,
    pub achievement_bump: u8,
}

/// The experience a visit to `spot` earns: its reward, but never less than
/// the default.
pub open spec fn visit_xp(spot: TouristSpot) -> u64 {
    if spot.base_xp_reward >= SPOT_XP_DEFAULT {
        spot.base_xp_reward
    } else {
        SPOT_XP_DEFAULT
    }
}

/// The message the backend admin must have signed for this visit.
pub open spec fn visit_message(ctx: VisitLandmark, timestamp: i64) -> Seq<u8> {
    location_message_of(ctx.user, ctx.spot_key, timestamp, ctx.spot.latitude, ctx.spot.longitude)
}

/// Why a visit is refused, if it is, in the order the checks are made.
pub open spec fn visit_error(ctx: VisitLandmark, timestamp: i64, location_proof: [u8; 64]) -> Option<
    ErrorCode,
> {
    if !ctx.spot.is_active {
        Some(ErrorCode::SpotNotActive)
    } else if is_zero_address(ctx.spot.authority) {
        Some(ErrorCode::SpotNotActive)
    } else if location_proof_result(
        ctx.config.backend_admin,
        visit_message(ctx, timestamp),
        location_proof@,
    ) is Err {
        Some(
            location_proof_result(
                ctx.config.backend_admin,
                visit_message(ctx, timestamp),
                location_proof@,
            )->Err_0,
        )
    } else if ctx.passport.owner != ctx.user {
        Some(ErrorCode::Unauthorized)
    } else if ctx.passport.stamps == u64::MAX {
        Some(ErrorCode::Overflow)
    } else if ctx.spot.total_visitors == u64::MAX {
        Some(ErrorCode::Overflow)
    } else {
        None
    }
}

/// The accounts after an accepted visit.
pub open spec fn visited(ctx: VisitLandmark, timestamp: i64, location_proof: [u8; 64]) -> VisitLandmark {
    VisitLandmark {
        achievement: GeoAchievement {
            user: ctx.user,
            spot: ctx.spot_key,
            timestamp: timestamp,
            location_proof: location_proof,
            xp_earned: visit_xp(ctx.spot),
            shared_on_social: false,
            bump: ctx.achievement_bump,
        },
        passport: Passport {
            stamps: (ctx.passport.stamps + 1) as u64,
            last_spot: ctx.spot_key,
            ..credited(ctx.passport, visit_xp(ctx.spot))
        },
        spot: TouristSpot { total_visitors: (ctx.spot.total_visitors + 1) as u64, ..ctx.spot },
        ..ctx
    }
}

/// A user proves, with a location proof signed by the backend admin, that
/// they stood at an active landmark at `timestamp`; the passport earns the
/// spot's experience and a stamp, the spot counts a visitor, and the visit is
/// recorded. A refused visit changes no account.
pub fn handle_visit_landmark(
    ctx: &mut VisitLandmark,
    timestamp: i64,
    location_proof: [u8; 64],
) -> (r: Result<(), ErrorCode>)
    ensures
        r == refusal_result(visit_error(*old(ctx), timestamp, location_proof)),
        r is Err ==> *final(ctx) == *old(ctx),
        r is Ok ==> *final(ctx) == visited(*old(ctx), timestamp, location_proof),
{
    if !ctx.spot.is_active {
        return Err(ErrorCode::SpotNotActive);
    }
    if ctx.spot.authority.is_zero() {
        return Err(ErrorCode::SpotNotActive);
    }
    let message = location_message(
        &ctx.user,
        &ctx.spot_key,
        timestamp,
        ctx.spot.latitude,
        ctx.spot.longitude,
    );
    match verify_location_proof(&ctx.config.backend_admin, &message, &location_proof) {
        Ok(()) => {},
        Err(e) => return Err(e),
    }
    if !ctx.passport.owner.equals(&ctx.user) {
        return Err(ErrorCode::Unauthorized);
    }
    if ctx.passport.stamps == u64::MAX {
        return Err(ErrorCode::Overflow);
    }
    if ctx.spot.total_visitors == u64::MAX {
        return Err(ErrorCode::Overflow);
    }
    let xp = if ctx.spot.base_xp_reward >= SPOT_XP_DEFAULT {
        ctx.spot.base_xp_reward
    } else {
        SPOT_XP_DEFAULT
    };
    ctx.achievement = GeoAchievement {
        user: ctx.user,
        spot: ctx.spot_key,
        timestamp,
        location_proof,
        xp_earned: xp,
        shared_on_social: false,
        bump: ctx.achievement_bump,
    };
    apply_xp(&mut ctx.passport, xp);
    ctx.passport.stamps = ctx.passport.stamps + 1;
    ctx.passport.last_spot = ctx.spot_key;
    ctx.spot.total_visitors = ctx.spot.total_visitors + 1;
    Ok(())
}

} // verus!
