use vstd::prelude::*;

use crate::constants::{MAX_NAME_LEN, MAX_TARGET_BUSINESSES};
use crate::error::ErrorCode;
use crate::instructions::check_in_business::refusal_result;
use crate::pubkey::Pubkey;
use crate::state::BusinessMission;
use crate::utils::{byte_len, utf8_len};

verus! {

/// The accounts of creating a mission; `mission` is the new account.
#[derive(Debug)]
pub struct CreateBusinessMission {
    pub business_group: Pubkey,
    pub mission: BusinessMission,
    pub mission_bump: u8,
}

/// Why creating a mission is refused, if it is, in the order the checks are made.
pub open spec fn create_mission_error(
    name: String,
    required_check_ins: u8,
    target_businesses: Vec<Pubkey>,
) -> Option<ErrorCode> {
    if utf8_len(name) > MAX_NAME_LEN {
        Some(ErrorCode::Overflow)
    } else if target_businesses@.len() > MAX_TARGET_BUSINESSES {
        Some(ErrorCode::TooManyTargets)
    } else if required_check_ins == 0 {
        Some(ErrorCode::Overflow)
    } else {
        None
    }
}

/// A business group creates an active mission over at most
/// `MAX_TARGET_BUSINESSES` businesses, needing at least one check-in.
/// A refused request changes no account.
pub fn handle_create_business_mission(
    ctx: &mut CreateBusinessMission,
    id: u64,
    name: String,
    required_check_ins: u8,
    target_businesses: Vec<Pubkey>,
    reward_discount: u8,
    expires_at: i64,
) -> (r: Result<(), ErrorCode>)
    ensures
        r == refusal_result(create_mission_error(name, required_check_ins, target_businesses)),
        r is Err ==> *final(ctx) == *old(ctx),
        r is Ok ==> *final(ctx) == (CreateBusinessMission {
            mission: BusinessMission {
                id,
                business_group: old(ctx).business_group,
                name,
                required_check_ins,
                target_businesses,
                reward_discount,
                expires_at,
                is_active: true,
                bump: old(ctx).mission_bump,
            },
            ..*old(ctx)
        }),
{
    if byte_len(&name) > MAX_NAME_LEN {
        return Err(ErrorCode::Overflow);
    }
    if target_businesses.len() > MAX_TARGET_BUSINESSES {
        return Err(ErrorCode::TooManyTargets);
    }
    if required_check_ins == 0 {
        return Err(ErrorCode::Overflow);
    }
    ctx.mission = BusinessMission {
        id,
        business_group: ctx.business_group,
        name,
        required_check_ins,
        target_businesses,
        reward_discount,
        expires_at,
        is_active: true,
        bump: ctx.mission_bump,
    };
    Ok(())
}

} // verus!
