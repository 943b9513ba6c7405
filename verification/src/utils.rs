use vstd::prelude::*;

use crate::constants::{BPS_DENOMINATOR, SHARE_BONUS_BPS, XP_PER_LEVEL};
use crate::state::Passport;

verus! {

/// The level that a total of experience is worth.
pub open spec fn level_of(total_xp: u64) -> u64 {
    total_xp / XP_PER_LEVEL
}

/// The total after adding `xp`; a sum past `u64::MAX` leaves the total as it was.
pub open spec fn add_xp_or_keep(total_xp: u64, xp: u64) -> u64 {
    if total_xp + xp <= u64::MAX {
        (total_xp + xp) as u64
    } else {
        total_xp
    }
}

/// A passport credited with `xp`: the total grows (or stays, on overflow),
/// the level follows the total, and nothing else changes.
pub open spec fn credited(p: Passport, xp: u64) -> Passport {
    Passport {
        total_xp: add_xp_or_keep(p.total_xp, xp),
        level: level_of(add_xp_or_keep(p.total_xp, xp)),
        ..p
    }
}

/// The bonus for sharing an achievement that earned `xp_earned`:
/// `SHARE_BONUS_BPS` basis points of it, rounded down, or nothing when the
/// product overflows.
pub open spec fn share_bonus_of(xp_earned: u64) -> u64 {
    if xp_earned * SHARE_BONUS_BPS <= u64::MAX {
        ((xp_earned * SHARE_BONUS_BPS) / (BPS_DENOMINATOR as int)) as u64
    } else {
        0
    }
}

/// The length of a text in UTF-8 bytes, as `str::len` reports it.
pub open spec fn utf8_len(s: String) -> usize {
    vstd::utf8::encode_utf8(s@).len() as usize
}

/// The length of a text in UTF-8 bytes.
pub fn byte_len(s: &String) -> (n: usize)
    ensures
        n == utf8_len(*s),
{
    s.as_str().len()
}

/// The level of a total of experience.
pub fn compute_level(total_xp: u64) -> (level: u64)
    ensures
        level == level_of(total_xp),
{
    total_xp / XP_PER_LEVEL
}

/// Credits `xp` to a passport and recomputes its level.
pub fn apply_xp(passport: &mut Passport, xp: u64)
    ensures
        *final(passport) == credited(*old(passport), xp),
{
    passport.total_xp = match passport.total_xp.checked_add(xp) {
        Some(t) => t,
        None => passport.total_xp,
    };
    passport.level = compute_level(passport.total_xp);
}

/// The experience bonus for sharing an achievement.
pub fn share_bonus(xp_earned: u64) -> (bonus: u64)
    ensures
        bonus == share_bonus_of(xp_earned),
{
    let product: u64 = match xp_earned.checked_mul(SHARE_BONUS_BPS) {
        Some(p) => p,
        None => 0,
    };
    product / BPS_DENOMINATOR
}

} // verus!
