use vstd::prelude::*;

use crate::constants::{
    BPS_DENOMINATOR, BUSINESS_XP_DEFAULT, MAX_NAME_LEN, MAX_TARGET_BUSINESSES, MISSION_BONUS_XP,
    RATING_MAX, SHARE_BONUS_BPS, SPOT_XP_DEFAULT, XP_PER_LEVEL,
};
use crate::error::ErrorCode;
use crate::instructions::check_in_business::{
    check_in_error, check_in_precheck_error, check_in_xp, checked_in, completes_mission, discount_refusal,
    mission_refusal, still_valid, CheckInBusiness,
};
use crate::instructions::create_business_mission::create_mission_error;
use crate::instructions::share_achievement::{share_error, shared, ShareAchievement};
use crate::instructions::visit_landmark::{visit_error, visited, VisitLandmark};
use crate::pubkey::Pubkey;
use crate::state::{BusinessAccount, Passport};
use crate::utils::{credited, level_of, share_bonus_of, utf8_len};

verus! {

/// A passport whose level is the one its experience is worth.
pub open spec fn level_in_step(p: Passport) -> bool {
    p.level == level_of(p.total_xp)
}

/// A business whose ratings, each between 1 and 5, add up to its sum.
pub open spec fn ratings_in_range(b: BusinessAccount) -> bool {
    b.rating_count <= b.rating_sum <= RATING_MAX * b.rating_count
}

/// More experience is never worth a lower level.
pub proof fn level_is_monotonic(a: u64, b: u64)
    requires
        a <= b,
    ensures
        level_of(a) <= level_of(b),
{
    assert(a / XP_PER_LEVEL <= b / XP_PER_LEVEL) by (nonlinear_arith)
        requires
            a <= b,
    ;
}

/// Crediting experience never lowers the total or the level, and leaves the
/// level in step with the total, whatever the passport held before.
pub proof fn credit_only_grows(p: Passport, xp: u64)
    ensures
        level_in_step(credited(p, xp)),
        credited(p, xp).total_xp >= p.total_xp,
        level_in_step(p) ==> credited(p, xp).level >= p.level,
        credited(p, xp).owner == p.owner,
        credited(p, xp).stamps == p.stamps,
{
    level_is_monotonic(p.total_xp, credited(p, xp).total_xp);
}

/// Every accepted visit, share and check-in leaves the passport's level in
/// step with its experience, and never lowers either of a passport whose
/// level was in step.
pub proof fn accepted_instructions_keep_levels_in_step(
    visit: VisitLandmark,
    timestamp: i64,
    location_proof: [u8; 64],
    share: ShareAchievement,
    check_in: CheckInBusiness,
    amount_spent: u64,
    rating: u8,
    use_discount: bool,
    check_in_timestamp: i64,
)
    ensures
        visit_error(visit, timestamp, location_proof) is None ==> {
            let after = visited(visit, timestamp, location_proof).passport;
            &&& level_in_step(after)
            &&& after.total_xp >= visit.passport.total_xp
            &&& level_in_step(visit.passport) ==> after.level >= visit.passport.level
        },
        share_error(share) is None ==> {
            let after = shared(share).passport;
            &&& level_in_step(after)
            &&& after.total_xp >= share.passport.total_xp
            &&& level_in_step(share.passport) ==> after.level >= share.passport.level
        },
        check_in_error(check_in, amount_spent, rating, use_discount, check_in_timestamp) is None
            ==> {
            let after = checked_in(
                check_in,
                amount_spent,
                rating,
                use_discount,
                check_in_timestamp,
            ).passport;
            &&& level_in_step(after)
            &&& after.total_xp >= check_in.passport.total_xp
            &&& level_in_step(check_in.passport) ==> after.level >= check_in.passport.level
        },
{
    credit_only_grows(visit.passport, crate::instructions::visit_landmark::visit_xp(visit.spot));
    credit_only_grows(share.passport, share_bonus_of(share.achievement.xp_earned));
    credit_only_grows(check_in.passport, check_in_xp(check_in));
}

/// An achievement can be shared only once: after an accepted share, sharing
/// it again is refused as already shared.
pub proof fn share_is_once(ctx: ShareAchievement)
    requires
        share_error(ctx) is None,
    ensures
        share_error(shared(ctx)) == Some(ErrorCode::AlreadyShared),
{
}

/// The share bonus never exceeds the experience the achievement earned, as
/// long as the bonus rate is at most one whole.
pub proof fn share_bonus_at_most_earned(xp_earned: u64)
    requires
        SHARE_BONUS_BPS <= BPS_DENOMINATOR,
    ensures
        share_bonus_of(xp_earned) <= xp_earned,
{
    let bps = SHARE_BONUS_BPS as int;
    let denominator = BPS_DENOMINATOR as int;
    let xp = xp_earned as int;
    if xp * bps <= u64::MAX {
        assert((xp * bps) / denominator <= xp) by (nonlinear_arith)
            requires
                0 <= bps <= denominator,
                0 < denominator,
                0 <= xp,
        ;
    }
}

/// Using a limited discount takes exactly one unit; using an unlimited one
/// changes nothing; and a limited discount whose last unit was used refuses
/// every later use: as exhausted while its deadline has not passed, as
/// expired once it has.
pub proof fn discount_units_are_spent_one_by_one(
    ctx: CheckInBusiness,
    amount_spent: u64,
    rating: u8,
    timestamp: i64,
    later_amount: u64,
    later_timestamp: i64,
)
    requires
        check_in_error(ctx, amount_spent, rating, true, timestamp) is None,
    ensures
        ({
            let before = ctx.discount->0;
            let after = checked_in(ctx, amount_spent, rating, true, timestamp).discount->0;
            &&& before.unlimited ==> after == before
            &&& !before.unlimited ==> after.available_units == before.available_units - 1
            &&& !before.unlimited && before.available_units == 1 && still_valid(
                after.valid_until,
                later_timestamp,
            ) ==> discount_refusal(Some(after), later_amount, later_timestamp) == Some(
                ErrorCode::DiscountExhausted,
            )
            &&& !before.unlimited && before.available_units == 1 && !still_valid(
                after.valid_until,
                later_timestamp,
            ) ==> discount_refusal(Some(after), later_amount, later_timestamp) == Some(
                ErrorCode::DiscountExpired,
            )
        }),
{
}

/// A check-in refused before the payment is refused, for the same reason,
/// whatever the rest of the request: the checks made before paying come first.
pub proof fn precheck_refusal_is_final(
    ctx: CheckInBusiness,
    amount_spent: u64,
    rating: u8,
    use_discount: bool,
    timestamp: i64,
)
    requires
        check_in_precheck_error(ctx, rating) is Some,
    ensures
        check_in_error(ctx, amount_spent, rating, use_discount, timestamp)
            == check_in_precheck_error(ctx, rating),
{
}

/// A mission's bonus is earned once: exactly the check-in that completes it
/// earns the bonus, and afterwards, while the mission stays open, further
/// check-ins towards it are refused as already completed.
pub proof fn mission_bonus_is_earned_once(
    ctx: CheckInBusiness,
    amount_spent: u64,
    rating: u8,
    use_discount: bool,
    timestamp: i64,
    later_timestamp: i64,
)
    requires
        check_in_error(ctx, amount_spent, rating, use_discount, timestamp) is None,
        ctx.mission is Some,
    ensures
        check_in_xp(ctx) == (if completes_mission(ctx) {
            BUSINESS_XP_DEFAULT + MISSION_BONUS_XP
        } else {
            BUSINESS_XP_DEFAULT as int
        }),
        completes_mission(ctx) && still_valid(ctx.mission->0.expires_at, later_timestamp)
            ==> mission_refusal(
            checked_in(ctx, amount_spent, rating, use_discount, timestamp),
            later_timestamp,
        ) == Some(ErrorCode::MissionAlreadyCompleted),
{
}

/// Every rating a business receives lies between 1 and 5, so its rating sum
/// stays between its rating count and five times that count.
pub proof fn ratings_stay_in_range(
    ctx: CheckInBusiness,
    amount_spent: u64,
    rating: u8,
    use_discount: bool,
    timestamp: i64,
)
    requires
        ratings_in_range(ctx.business_account),
        check_in_error(ctx, amount_spent, rating, use_discount, timestamp) is None,
    ensures
        ratings_in_range(
            checked_in(ctx, amount_spent, rating, use_discount, timestamp).business_account,
        ),
{
}

/// An accepted visit earns the spot's reward, or `SPOT_XP_DEFAULT` when the
/// reward is smaller: the achievement records exactly that much, and the
/// passport's total grows by exactly that much (when the sum fits).
pub proof fn visit_earns_reward_or_default(
    ctx: VisitLandmark,
    timestamp: i64,
    location_proof: [u8; 64],
)
    requires
        visit_error(ctx, timestamp, location_proof) is None,
    ensures
        ({
            let reward = ctx.spot.base_xp_reward;
            let earned = visited(ctx, timestamp, location_proof).achievement.xp_earned;
            let after = visited(ctx, timestamp, location_proof).passport;
            &&& reward >= SPOT_XP_DEFAULT ==> earned == reward
            &&& reward < SPOT_XP_DEFAULT ==> earned == SPOT_XP_DEFAULT
            &&& earned >= reward && earned >= SPOT_XP_DEFAULT
            &&& ctx.passport.total_xp + earned <= u64::MAX ==> after.total_xp
                == ctx.passport.total_xp + earned
            &&& after.stamps == ctx.passport.stamps + 1
            &&& after.last_spot == ctx.spot_key
        }),
{
}

/// An accepted share credits the passport with exactly `SHARE_BONUS_BPS`
/// basis points of what the shared achievement earned, rounded down (when the
/// product and the new total fit).
pub proof fn share_credits_bonus_of_achievement(ctx: ShareAchievement)
    requires
        share_error(ctx) is None,
    ensures
        ({
            let xp = ctx.achievement.xp_earned;
            let bonus = xp * SHARE_BONUS_BPS / (BPS_DENOMINATOR as int);
            &&& xp * SHARE_BONUS_BPS <= u64::MAX && ctx.passport.total_xp + bonus <= u64::MAX
                ==> shared(ctx).passport.total_xp == ctx.passport.total_xp + bonus
            &&& shared(ctx).achievement.shared_on_social
            &&& shared(ctx).passport.owner == ctx.passport.owner
        }),
{
}

/// Creating a mission is refused only for a name over `MAX_NAME_LEN` bytes,
/// more than `MAX_TARGET_BUSINESSES` targets, or no required check-in; any
/// other request is accepted, whatever its number of required check-ins
/// compared with its number of targets.
pub proof fn mission_creation_refused_only_for_limits(
    name: String,
    required_check_ins: u8,
    target_businesses: Vec<Pubkey>,
)
    ensures
        (utf8_len(name) <= MAX_NAME_LEN && target_businesses@.len() <= MAX_TARGET_BUSINESSES
            && required_check_ins >= 1) <==> create_mission_error(
            name,
            required_check_ins,
            target_businesses,
        ) is None,
{
}

/// A check-in at a business listed anywhere among the mission's targets is
/// never refused as not part of the mission; only a business listed nowhere is.
pub proof fn every_target_business_is_in_the_mission(
    ctx: CheckInBusiness,
    amount_spent: u64,
    rating: u8,
    use_discount: bool,
    timestamp: i64,
    i: int,
)
    ensures
        ctx.mission is Some && 0 <= i < ctx.mission->0.target_businesses@.len()
            && ctx.mission->0.target_businesses@[i] == ctx.business_wallet ==> check_in_error(
            ctx,
            amount_spent,
            rating,
            use_discount,
            timestamp,
        ) != Some(ErrorCode::BusinessNotInMission),
        check_in_error(ctx, amount_spent, rating, use_discount, timestamp) == Some(
            ErrorCode::BusinessNotInMission,
        ) ==> ctx.mission is Some && forall|j: int|
            0 <= j < ctx.mission->0.target_businesses@.len()
                ==> ctx.mission->0.target_businesses@[j] != ctx.business_wallet,
{
    if ctx.mission is Some && 0 <= i < ctx.mission->0.target_businesses@.len()
        && ctx.mission->0.target_businesses@[i] == ctx.business_wallet {
        assert(ctx.mission->0.target_businesses@.contains(ctx.business_wallet));
    }
}

/// A check-in that uses a discount is accepted only when the purchase reaches
/// the discount's minimum, limited or unlimited alike; an active discount
/// within its deadline is refused as below the minimum whenever the purchase
/// is smaller.
pub proof fn discount_needs_minimum_purchase(
    ctx: CheckInBusiness,
    amount_spent: u64,
    rating: u8,
    timestamp: i64,
)
    ensures
        check_in_error(ctx, amount_spent, rating, true, timestamp) is None ==> ctx.discount is Some
            && amount_spent >= ctx.discount->0.min_purchase,
        ({
            let d = ctx.discount->0;
            check_in_precheck_error(ctx, rating) is None && ctx.discount is Some && d.is_active
                && still_valid(d.valid_until, timestamp) && amount_spent < d.min_purchase
                ==> check_in_error(ctx, amount_spent, rating, true, timestamp) == Some(
                ErrorCode::BelowMinPurchase,
            )
        }),
{
}

} // verus!
