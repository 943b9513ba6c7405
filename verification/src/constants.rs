use vstd::prelude::*;

verus! {

/// Experience needed for each passport level.
pub const XP_PER_LEVEL: u64 = 1000;

/// Experience granted by a landmark visit when the spot asks for less.
pub const SPOT_XP_DEFAULT: u64 = 100;

/// Experience granted by every business check-in.
pub const BUSINESS_XP_DEFAULT: u64 = 50;

/// Extra experience granted by the check-in that completes a mission.
pub const MISSION_BONUS_XP: u64 = 250;

/// Share bonus, in basis points of the experience the achievement earned.
pub const SHARE_BONUS_BPS: u64 = 1000;

/// Basis-point denominator.
pub const BPS_DENOMINATOR: u64 = 10000;

/// Lowest accepted rating.
pub const RATING_MIN: u8 = 1;

/// Highest accepted rating.
pub const RATING_MAX: u8 = 5;

/// Longest name (in UTF-8 bytes) of a spot, business or mission.
pub const MAX_NAME_LEN: usize = 64;

/// Longest achievement URI, in UTF-8 bytes.
pub const MAX_URI_LEN: usize = 128;

/// Longest discount code, in UTF-8 bytes.
pub const MAX_CODE_LEN: usize = 32;

/// Most businesses a mission can target.
pub const MAX_TARGET_BUSINESSES: usize = 10;

} // verus!
