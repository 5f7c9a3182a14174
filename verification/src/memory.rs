//! Verified in-memory implementations of the repository contracts:
//! the reference backend the interactors are exercised against.

pub mod staff;
pub mod tenant;
