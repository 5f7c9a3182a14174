//! A layered tenant/staff service core: domain model, repository
//! contracts, and use-case interactors, with the business rules
//! (lenient enumeration parsing, existence checks, partial-update
//! merges, timestamp discipline) stated and proved.

// Re-exported so that outside backends implementing the repository
// traits can name the model type their ghost items return.
pub use vstd::prelude::Seq;

pub mod bridge;
pub mod cmd;
pub mod config;
pub mod database;
pub mod environment;
pub mod error;
pub mod input;
pub mod interactor;
pub mod memory;
pub mod output;
pub mod repository;
pub mod staff;
pub mod staff_role;
pub mod tenant;
pub mod tenant_tag_type;
pub mod text;
pub mod wire;
