use vstd::prelude::*;

use crate::error::ErrorCode;
use crate::pubkey::{is_zero_address, Pubkey};
use crate::state::Passport;

verus! {

/// The accounts of creating a passport for the signing user.
#[derive(Clone, Copy, Debug)]
pub struct InitializePassport {
    pub user: Pubkey,
    pub passport: Passport,
    pub passport_bump: u8,
}

/// Creates an empty passport owned by the user: no experience, level 0, no
/// stamps, and no last spot.
pub fn handle_initialize_passport(ctx: &mut InitializePassport) -> (r: Result<(), ErrorCode>)
    ensures
        r == Ok::<(), ErrorCode>(()),
        final(ctx).user == old(ctx).user,
        final(ctx).passport_bump == old(ctx).passport_bump,
        final(ctx).passport.owner == old(ctx).user,
        final(ctx).passport.level == 0,
        final(ctx).passport.total_xp == 0,
        final(ctx).passport.stamps == 0,
        is_zero_address(final(ctx).passport.last_spot),
        final(ctx).passport.bump == old(ctx).passport_bump,
{
    ctx.passport = Passport {
        owner: ctx.user,
        level: 0,
        total_xp: 0,
        stamps: 0,
        last_spot: Pubkey::zero(),
        bump: ctx.passport_bump,
    };
    Ok(())
}

} // verus!
