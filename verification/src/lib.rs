//! Huellazo: a tourist passport with geo-stamped landmark visits, shared
//! achievements, business check-ins, discounts and business missions.
//!
//! The library holds the rules of every instruction as verified functions
//! over plain account data; the Solana/Anchor glue lives in `app/`.

pub mod constants;
pub mod error;
pub mod location_proof;
pub mod pubkey;
pub mod state;
pub mod utils;
pub mod instructions;
pub mod laws;
