use vstd::prelude::*;

use crate::error::ErrorCode;
use crate::instructions::check_in_business::refusal_result;
use crate::pubkey::Pubkey;
use crate::state::{GeoAchievement, Passport};
use crate::utils::{apply_xp, credited, share_bonus, share_bonus_of};

verus! {

/// The accounts of sharing an achievement.
#[derive(Clone, Copy, Debug)]
pub struct ShareAchievement {
    pub user: Pubkey,
    pub achievement: GeoAchievement,
    pub passport: Passport,
}

/// Why sharing is refused, if it is, in the order the checks are made.
pub open spec fn share_error(ctx: ShareAchievement) -> Option<ErrorCode> {
    if ctx.passport.owner != ctx.user {
        Some(ErrorCode::Unauthorized)
    } else if ctx.achievement.user != ctx.user {
        Some(ErrorCode::NotAchievementOwner)
    } else if ctx.achievement.shared_on_social {
        Some(ErrorCode::AlreadyShared)
    } else {
        None
    }
}

/// The accounts after an accepted share: the achievement is marked shared and
/// the passport earns the share bonus.
pub open spec fn shared(ctx: ShareAchievement) -> ShareAchievement {
    ShareAchievement {
        achievement: GeoAchievement { shared_on_social: true, ..ctx.achievement },
        passport: credited(ctx.passport, share_bonus_of(ctx.achievement.xp_earned)),
        ..ctx
    }
}

/// A user shares one of their achievements on social media, once, for a
/// bonus. A refused share changes no account.
pub fn handle_share_achievement(ctx: &mut ShareAchievement) -> (r: Result<(), ErrorCode>)
    ensures
        r == refusal_result(share_error(*old(ctx))),
        r is Err ==> *final(ctx) == *old(ctx),
        r is Ok ==> *final(ctx) == shared(*old(ctx)),
{
    if !ctx.passport.owner.equals(&ctx.user) {
        return Err(ErrorCode::Unauthorized);
    }
    if !ctx.achievement.user.equals(&ctx.user) {
        return Err(ErrorCode::NotAchievementOwner);
    }
    if ctx.achievement.shared_on_social {
        return Err(ErrorCode::AlreadyShared);
    }
    let bonus = share_bonus(ctx.achievement.xp_earned);
    ctx.achievement.shared_on_social = true;
    apply_xp(&mut ctx.passport, bonus);
    Ok(())
}

} // verus!
