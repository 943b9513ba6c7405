use vstd::prelude::*;

verus! {

/// Why an instruction was refused.
#[derive(Clone, Copy, Debug, PartialEq, Eq, Structural)]
pub enum ErrorCode {
    Unauthorized,
    InvalidRating,
    SpotNotActive,
    DiscountExpired,
    DiscountExhausted,
    BelowMinPurchase,
    BusinessNotActive,
    MissionExpired,
    MissionNotActive,
    BusinessNotInMission,
    MissionAlreadyCompleted,
    AlreadyShared,
    NotAchievementOwner,
    InvalidLocationProof,
    InvalidPubkeyBytes,
    InvalidSignatureBytes,
    TooManyTargets,
    Overflow,
}

} // verus!
