//! Input DTOs: the plain data each use-case operation takes across the
//! layer boundary.

pub mod staff;
pub mod tenant;
