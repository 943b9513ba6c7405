use vstd::prelude::*;

use crate::constants::MAX_NAME_LEN;
use crate::error::ErrorCode;
use crate::pubkey::Pubkey;
use crate::state::BusinessAccount;
use crate::utils::{byte_len, utf8_len};

verus! {

/// The accounts of registering a business; `business` is the new account.
#[derive(Debug)]
pub struct CreateBusiness {
    pub authority: Pubkey,
    pub business: BusinessAccount,
    pub business_bump: u8,
}

/// The accounts of opening or closing a business.
#[derive(Debug)]
pub struct SetBusinessActive {
    pub authority: Pubkey,
    pub business: BusinessAccount,
}

/// The signer registers an active business with no ratings yet. A refused
/// request changes no account.
pub fn handle_create_business(ctx: &mut CreateBusiness, name: String) -> (r: Result<(), ErrorCode>)
    ensures
        utf8_len(name) > MAX_NAME_LEN ==> r == Err::<(), ErrorCode>(ErrorCode::Overflow)
            && *final(ctx) == *old(ctx),
        utf8_len(name) <= MAX_NAME_LEN ==> r == Ok::<(), ErrorCode>(()) && *final(ctx) == (
        CreateBusiness {
            business: BusinessAccount {
                authority: old(ctx).authority,
                name,
                rating_sum: 0,
                rating_count: 0,
                is_active: true,
                bump: old(ctx).business_bump,
            },
            ..*old(ctx)
        }),
{
    if byte_len(&name) > MAX_NAME_LEN {
        return Err(ErrorCode::Overflow);
    }
    ctx.business = BusinessAccount {
        authority: ctx.authority,
        name,
        rating_sum: 0,
        rating_count: 0,
        is_active: true,
        bump: ctx.business_bump,
    };
    Ok(())
}

/// The business's authority opens or closes it.
pub fn handle_set_business_active(ctx: &mut SetBusinessActive, active: bool) -> (r: Result<
    (),
    ErrorCode,
>)
    ensures
        old(ctx).business.authority != old(ctx).authority ==> r == Err::<(), ErrorCode>(
            ErrorCode::Unauthorized,
        ) && *final(ctx) == *old(ctx),
        old(ctx).business.authority == old(ctx).authority ==> r == Ok::<(), ErrorCode>(())
            && *final(ctx) == (SetBusinessActive {
            business: BusinessAccount { is_active: active, ..old(ctx).business },
            ..*old(ctx)
        }),
{
    if !ctx.business.authority.equals(&ctx.authority) {
        return Err(ErrorCode::Unauthorized);
    }
    ctx.business.is_active = active;
    Ok(())
}

} // verus!
