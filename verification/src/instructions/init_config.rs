use vstd::prelude::*;

use crate::error::ErrorCode;
use crate::pubkey::Pubkey;
use crate::state::Config;

verus! {

/// The accounts of creating the configuration: `admin` signs and becomes
/// the administrator.
#[derive(Clone, Copy, Debug)]
pub struct InitConfig {
    pub admin: Pubkey,
    pub config: Config,
    pub config_bump: u8,
}

/// The accounts of replacing the backend admin.
#[derive(Clone, Copy, Debug)]
pub struct UpdateBackendAdmin {
    pub admin: Pubkey,
    pub config: Config,
}

/// Creates the configuration, with the signer as administrator.
pub fn handle_init_config(ctx: &mut InitConfig, backend_admin: Pubkey) -> (r: Result<(), ErrorCode>)
    ensures
        r == Ok::<(), ErrorCode>(()),
        *final(ctx) == (InitConfig {
            config: Config { admin: old(ctx).admin, backend_admin, bump: old(ctx).config_bump },
            ..*old(ctx)
        }),
{
    ctx.config = Config { admin: ctx.admin, backend_admin, bump: ctx.config_bump };
    Ok(())
}

/// Replaces the key that signs location proofs; only the administrator may.
pub fn handle_update_backend_admin(ctx: &mut UpdateBackendAdmin, backend_admin: Pubkey) -> (r:
    Result<(), ErrorCode>)
    ensures
        old(ctx).config.admin != old(ctx).admin ==> r == Err::<(), ErrorCode>(
            ErrorCode::Unauthorized,
        ) && *final(ctx) == *old(ctx),
        old(ctx).config.admin == old(ctx).admin ==> r == Ok::<(), ErrorCode>(()) && *final(ctx) == (
        UpdateBackendAdmin { config: Config { backend_admin, ..old(ctx).config }, ..*old(ctx) }),
{
    if !ctx.config.admin.equals(&ctx.admin) {
        return Err(ErrorCode::Unauthorized);
    }
    ctx.config.backend_admin = backend_admin;
    Ok(())
}

} // verus!
