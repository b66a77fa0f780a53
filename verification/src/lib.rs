//! A tier-driven savings engine: proofs are identified by content, achievements
//! unlock once, users are classified by how much they achieved, and savings
//! accrue interest at the rate of the user's tier.

pub mod address;
pub mod table;
pub mod admin;
pub mod proof_verifier;
pub mod ultrahonk;
pub mod user_levels;
pub mod defindex;
pub mod savings_goals;
pub mod course_completion;
