//! The use-case layer: one interactor per entity, generic over any
//! repository meeting the capability contract.

pub mod staff;
pub mod tenant;
