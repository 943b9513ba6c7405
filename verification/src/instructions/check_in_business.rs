use vstd::prelude::*;

use crate::constants::{BUSINESS_XP_DEFAULT, MISSION_BONUS_XP, RATING_MAX, RATING_MIN};
use crate::error::ErrorCode;
use crate::pubkey::{contains_key, Pubkey};
use crate::state::{
    BusinessAccount, BusinessCheckIn, BusinessMission, Discount, Passport,
    UserBusinessMissionProgress,
};
use crate::utils::{apply_xp, credited};

verus! {

/// The accounts of a business check-in.
///
/// `check_in` is the freshly created record of this check-in; `discount`,
/// `mission` (at address `mission_key`) and `mission_progress` are the
/// optional accounts the user passed.
#[derive(Debug)]
pub struct CheckInBusiness {
    pub user: Pubkey,
    pub business_wallet: Pubkey,
    pub business_account: BusinessAccount,
    pub passport: Passport,
    pub check_in: BusinessCheckIn,
    pub check_in_bump: u8,
    pub discount: Option<Discount>,
    pub mission: Option<BusinessMission>,
    pub mission_key: Pubkey,
    pub mission_progress: Option<UserBusinessMissionProgress>,
}

/// `Ok(())` when nothing refuses a request, else the refusal.
pub open spec fn refusal_result(refusal: Option<ErrorCode>) -> Result<(), ErrorCode> {
    match refusal {
        Some(e) => Err(e),
        None => Ok(()),
    }
}

/// A deadline of zero never passes; any other passes at that second.
pub open spec fn still_valid(deadline: i64, timestamp: i64) -> bool {
    deadline == 0 || deadline > timestamp
}

/// The checks made before the payment: the wallet owns the business, the
/// passport belongs to the user, the rating is in range and the business is
/// active.
pub open spec fn check_in_precheck_error(ctx: CheckInBusiness, rating: u8) -> Option<ErrorCode> {
    if ctx.business_wallet != ctx.business_account.authority {
        Some(ErrorCode::Unauthorized)
    } else if ctx.passport.owner != ctx.user {
        Some(ErrorCode::Unauthorized)
    } else if !(RATING_MIN <= rating <= RATING_MAX) {
        Some(ErrorCode::InvalidRating)
    } else if !ctx.business_account.is_active {
        Some(ErrorCode::BusinessNotActive)
    } else {
        None
    }
}

/// Why a requested discount cannot be used, if it cannot: inactive, past its
/// deadline, below its minimum purchase, or out of units, in that order. An
/// inactive limited discount with no units left whose deadline has not passed
/// (its last unit was used) is exhausted rather than expired.
pub open spec fn discount_refusal(
    discount: Option<Discount>,
    amount_spent: u64,
    timestamp: i64,
) -> Option<ErrorCode> {
    match discount {
        None => Some(ErrorCode::Unauthorized),
        Some(d) => if !d.is_active {
            if !d.unlimited && d.available_units == 0 && still_valid(d.valid_until, timestamp) {
                Some(ErrorCode::DiscountExhausted)
            } else {
                Some(ErrorCode::DiscountExpired)
            }
        } else if !still_valid(d.valid_until, timestamp) {
            Some(ErrorCode::DiscountExpired)
        } else if amount_spent < d.min_purchase {
            Some(ErrorCode::BelowMinPurchase)
        } else if !d.unlimited && d.available_units == 0 {
            Some(ErrorCode::DiscountExhausted)
        } else {
            None
        },
    }
}

/// Why the mission passed along cannot count this check-in, if it cannot.
pub open spec fn mission_refusal(ctx: CheckInBusiness, timestamp: i64) -> Option<ErrorCode> {
    match ctx.mission {
        None => None,
        Some(m) => if !m.is_active {
            Some(ErrorCode::MissionNotActive)
        } else if !still_valid(m.expires_at, timestamp) {
            Some(ErrorCode::MissionExpired)
        } else if !m.target_businesses@.contains(ctx.business_wallet) {
            Some(ErrorCode::BusinessNotInMission)
        } else {
            match ctx.mission_progress {
                None => Some(ErrorCode::Overflow),
                Some(p) => if p.completed {
                    Some(ErrorCode::MissionAlreadyCompleted)
                } else if p.check_ins == u8::MAX {
                    Some(ErrorCode::Overflow)
                } else {
                    None
                },
            }
        },
    }
}

/// Why a check-in is refused, if it is, in the order the checks are made.
pub open spec fn check_in_error(
    ctx: CheckInBusiness,
    amount_spent: u64,
    rating: u8,
    use_discount: bool,
    timestamp: i64,
) -> Option<ErrorCode> {
    if check_in_precheck_error(ctx, rating) is Some {
        check_in_precheck_error(ctx, rating)
    } else if use_discount && discount_refusal(ctx.discount, amount_spent, timestamp) is Some {
        discount_refusal(ctx.discount, amount_spent, timestamp)
    } else if mission_refusal(ctx, timestamp) is Some {
        mission_refusal(ctx, timestamp)
    } else if ctx.business_account.rating_sum + rating > u64::MAX {
        Some(ErrorCode::Overflow)
    } else if ctx.business_account.rating_count + 1 > u64::MAX {
        Some(ErrorCode::Overflow)
    } else {
        None
    }
}

/// Whether this check-in completes the mission passed along.
pub open spec fn completes_mission(ctx: CheckInBusiness) -> bool {
    &&& ctx.mission is Some
    &&& ctx.mission_progress is Some
    &&& ctx.mission_progress->0.check_ins + 1 >= ctx.mission->0.required_check_ins
}

/// The experience a check-in earns: the default, plus the mission bonus
/// when it completes the mission.
pub open spec fn check_in_xp(ctx: CheckInBusiness) -> u64 {
    if completes_mission(ctx) {
        (BUSINESS_XP_DEFAULT + MISSION_BONUS_XP) as u64
    } else {
        BUSINESS_XP_DEFAULT
    }
}

/// The discount after it was used: a limited one loses a unit, and is
/// deactivated when that was its last.
pub open spec fn discount_after_use(d: Discount) -> Discount {
    if d.unlimited {
        d
    } else {
        Discount {
            available_units: (d.available_units - 1) as u32,
            is_active: if d.available_units - 1 == 0 {
                false
            } else {
                d.is_active
            },
            ..d
        }
    }
}

/// The user's mission progress after one more check-in.
pub open spec fn progress_after_check_in(ctx: CheckInBusiness) -> Option<
    UserBusinessMissionProgress,
> {
    match (ctx.mission, ctx.mission_progress) {
        (Some(m), Some(p)) => Some(
            UserBusinessMissionProgress {
                user: ctx.user,
                mission: ctx.mission_key,
                check_ins: (p.check_ins + 1) as u8,
                completed: if p.check_ins + 1 >= m.required_check_ins {
                    true
                } else {
                    p.completed
                },
                bump: 0,
            },
        ),
        _ => ctx.mission_progress,
    }
}

/// The accounts after an accepted check-in.
pub open spec fn checked_in(
    ctx: CheckInBusiness,
    amount_spent: u64,
    rating: u8,
    use_discount: bool,
    timestamp: i64,
) -> CheckInBusiness {
    CheckInBusiness {
        business_account: BusinessAccount {
            rating_sum: (ctx.business_account.rating_sum + rating) as u64,
            rating_count: (ctx.business_account.rating_count + 1) as u64,
            ..ctx.business_account
        },
        passport: credited(ctx.passport, check_in_xp(ctx)),
        check_in: BusinessCheckIn {
            user: ctx.user,
            business: ctx.business_wallet,
            timestamp: timestamp,
            amount_spent: amount_spent,
            rating: rating,
            xp_earned: check_in_xp(ctx),
            used_discount: use_discount,
            discount_applied: if use_discount {
                ctx.discount->0.discount_percent
            } else {
                0
            },
            bump: ctx.check_in_bump,
        },
        discount: if use_discount {
            Some(discount_after_use(ctx.discount->0))
        } else {
            ctx.discount
        },
        mission_progress: progress_after_check_in(ctx),
        ..ctx
    }
}

/// The checks a check-in passes before the user pays the business.
pub fn check_in_precheck(ctx: &CheckInBusiness, rating: u8) -> (r: Result<(), ErrorCode>)
    ensures
        r == refusal_result(check_in_precheck_error(*ctx, rating)),
{
    if !ctx.business_wallet.equals(&ctx.business_account.authority) {
        return Err(ErrorCode::Unauthorized);
    }
    if !ctx.passport.owner.equals(&ctx.user) {
        return Err(ErrorCode::Unauthorized);
    }
    if !(rating >= RATING_MIN && rating <= RATING_MAX) {
        return Err(ErrorCode::InvalidRating);
    }
    if !ctx.business_account.is_active {
        return Err(ErrorCode::BusinessNotActive);
    }
    Ok(())
}

/// Checks a requested discount without using it.
fn check_discount(discount: &Option<Discount>, amount_spent: u64, timestamp: i64) -> (r: Result<
    u8,
    ErrorCode,
>)
    ensures
        match discount_refusal(*discount, amount_spent, timestamp) {
            Some(e) => r == Err::<u8, ErrorCode>(e),
            None => r == Ok::<u8, ErrorCode>(discount->0.discount_percent),
        },
{
    match discount {
        None => Err(ErrorCode::Unauthorized),
        Some(d) => {
            let in_time = d.valid_until == 0 || d.valid_until > timestamp;
            let used_up = !d.unlimited && d.available_units == 0;
            if !d.is_active {
                if used_up && in_time {
                    return Err(ErrorCode::DiscountExhausted);
                }
                return Err(ErrorCode::DiscountExpired);
            }
            if !in_time {
                return Err(ErrorCode::DiscountExpired);
            }
            if amount_spent < d.min_purchase {
                return Err(ErrorCode::BelowMinPurchase);
            }
            if used_up {
                return Err(ErrorCode::DiscountExhausted);
            }
            Ok(d.discount_percent)
        },
    }
}

/// Checks the mission passed along; answers whether this check-in completes it.
fn check_mission(ctx: &CheckInBusiness, timestamp: i64) -> (r: Result<bool, ErrorCode>)
    ensures
        match mission_refusal(*ctx, timestamp) {
            Some(e) => r == Err::<bool, ErrorCode>(e),
            None => r == Ok::<bool, ErrorCode>(completes_mission(*ctx)),
        },
{
    match &ctx.mission {
        None => Ok(false),
        Some(m) => {
            if !m.is_active {
                return Err(ErrorCode::MissionNotActive);
            }
            if !(m.expires_at == 0 || m.expires_at > timestamp) {
                return Err(ErrorCode::MissionExpired);
            }
            if !contains_key(&m.target_businesses, &ctx.business_wallet) {
                return Err(ErrorCode::BusinessNotInMission);
            }
            match &ctx.mission_progress {
                None => Err(ErrorCode::Overflow),
                Some(p) => {
                    if p.completed {
                        return Err(ErrorCode::MissionAlreadyCompleted);
                    }
                    if p.check_ins == u8::MAX {
                        return Err(ErrorCode::Overflow);
                    }
                    Ok(p.check_ins + 1 >= m.required_check_ins)
                },
            }
        },
    }
}

/// A business check-in: the user rates the business, may redeem one of its
/// discounts and may count the check-in towards a mission; the passport earns
/// experience and the check-in is recorded.
///
/// The payment of `amount_spent` to the business wallet is made by the caller
/// after `check_in_precheck` accepts and before this function runs. The ids
/// only locate the discount and mission accounts. A refused check-in changes
/// no account.
pub fn handle_check_in_business(
    ctx: &mut CheckInBusiness,
    amount_spent: u64,
    rating: u8,
    use_discount: bool,
    _discount_id: Option<u64>,
    mission_id: Option<u64>,
    timestamp: i64,
) -> (r: Result<(), ErrorCode>)
    ensures
        r == refusal_result(check_in_error(*old(ctx), amount_spent, rating, use_discount, timestamp)),
        r is Err ==> *final(ctx) == *old(ctx),
        r is Ok ==> *final(ctx) == checked_in(
            *old(ctx),
            amount_spent,
            rating,
            use_discount,
            timestamp,
        ),
{
    let _ = mission_id;
    match check_in_precheck(ctx, rating) {
        Ok(()) => {},
        Err(e) => return Err(e),
    }
    let mut discount_applied: u8 = 0;
    if use_discount {
        match check_discount(&ctx.discount, amount_spent, timestamp) {
            Ok(percent) => {
                discount_applied = percent;
            },
            Err(e) => return Err(e),
        }
    }
    let completes = match check_mission(ctx, timestamp) {
        Ok(c) => c,
        Err(e) => return Err(e),
    };
    let rating_sum = match ctx.business_account.rating_sum.checked_add(rating as u64) {
        Some(s) => s,
        None => return Err(ErrorCode::Overflow),
    };
    let rating_count = match ctx.business_account.rating_count.checked_add(1) {
        Some(c) => c,
        None => return Err(ErrorCode::Overflow),
    };
    let xp: u64 = if completes {
        BUSINESS_XP_DEFAULT + MISSION_BONUS_XP
    } else {
        BUSINESS_XP_DEFAULT
    };

    if use_discount {
        match &mut ctx.discount {
            Some(d) => {
                if !d.unlimited {
                    d.available_units = d.available_units - 1;
                    if d.available_units == 0 {
                        d.is_active = false;
                    }
                }
            },
            None => {},
        }
    }
    if ctx.mission.is_some() {
        let user = ctx.user;
        let mission_key = ctx.mission_key;
        match &mut ctx.mission_progress {
            Some(p) => {
                p.user = user;
                p.mission = mission_key;
                p.check_ins = p.check_ins + 1;
                if completes {
                    p.completed = true;
                }
                p.bump = 0;
            },
            None => {},
        }
    }
    apply_xp(&mut ctx.passport, xp);
    ctx.business_account.rating_sum = rating_sum;
    ctx.business_account.rating_count = rating_count;
    ctx.check_in = BusinessCheckIn {
        user: ctx.user,
        business: ctx.business_wallet,
        timestamp,
        amount_spent,
        rating,
        xp_earned: xp,
        used_discount: use_discount,
        discount_applied,
        bump: ctx.check_in_bump,
    };
    Ok(())
}

} // verus!
