use vstd::prelude::*;

use crate::constants::MAX_CODE_LEN;
use crate::error::ErrorCode;
use crate::instructions::check_in_business::refusal_result;
use crate::pubkey::Pubkey;
use crate::state::{BusinessAccount, Discount};
use crate::utils::{byte_len, utf8_len};

verus! {

/// The accounts of creating a discount: the signing business, its account,
/// and the new discount account.
#[derive(Debug)]
pub struct CreateDiscount {
    pub business: Pubkey,
    pub business_account: BusinessAccount,
    pub discount: Discount,
    pub discount_bump: u8,
}

/// Why creating a discount is refused, if it is, in the order the checks are made.
pub open spec fn create_discount_error(ctx: CreateDiscount, code: String, discount_percent: u8) -> Option<
    ErrorCode,
> {
    if ctx.business_account.authority != ctx.business {
        Some(ErrorCode::Unauthorized)
    } else if utf8_len(code) > MAX_CODE_LEN {
        Some(ErrorCode::Overflow)
    } else if discount_percent > 100 {
        Some(ErrorCode::Overflow)
    } else {
        None
    }
}

/// A business creates an active discount; zero available units makes it
/// unlimited. A refused request changes no account.
pub fn handle_create_discount(
    ctx: &mut CreateDiscount,
    id: u64,
    code: String,
    discount_percent: u8,
    min_purchase: u64,
    available_units: u32,
    valid_until: i64,
) -> (r: Result<(), ErrorCode>)
    ensures
        r == refusal_result(create_discount_error(*old(ctx), code, discount_percent)),
        r is Err ==> *final(ctx) == *old(ctx),
        r is Ok ==> *final(ctx) == (CreateDiscount {
            discount: Discount {
                id,
                business: old(ctx).business,
                code,
                discount_percent,
                min_purchase,
                available_units,
                unlimited: available_units == 0,
                valid_until,
                is_active: true,
                bump: old(ctx).discount_bump,
            },
            ..*old(ctx)
        }),
{
    if !ctx.business_account.authority.equals(&ctx.business) {
        return Err(ErrorCode::Unauthorized);
    }
    if byte_len(&code) > MAX_CODE_LEN {
        return Err(ErrorCode::Overflow);
    }
    if discount_percent > 100 {
        return Err(ErrorCode::Overflow);
    }
    ctx.discount = Discount {
        id,
        business: ctx.business,
        code,
        discount_percent,
        min_purchase,
        available_units,
        unlimited: available_units == 0,
        valid_until,
        is_active: true,
        bump: ctx.discount_bump,
    };
    Ok(())
}

} // verus!
