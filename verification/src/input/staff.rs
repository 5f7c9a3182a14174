//! Inputs for the staff use-cases.

use vstd::prelude::*;

use crate::staff::StaffId;
use crate::staff_role::StaffRole;
use crate::tenant::TenantId;

verus! {

#[derive(Debug)]
pub struct CreateStaffInput {
    pub tenant_id: TenantId,
    pub role: StaffRole,
    pub auth_uid: String,
    pub display_name: String,
    pub image_path: String,
    pub email: String,
}

#[derive(Debug)]
pub struct UpdateStaffInput {
    pub id: StaffId,
    pub role: Option<StaffRole>,
    pub display_name: Option<String>,
    pub image_path: Option<String>,
    pub email: Option<String>,
}

#[derive(Debug)]
pub struct GetStaffInput {
    pub id: Option<StaffId>,
    pub auth_uid: Option<String>,
    pub with_tenant: bool,
}

#[derive(Debug)]
pub struct ListStaffInput {
    pub tenant_id: Option<TenantId>,
    pub limit: Option<u64>,
    pub offset: Option<u64>,
}

impl Default for ListStaffInput {
    fn default() -> (r: Self)
        ensures
            r.tenant_id is None,
            r.limit is None,
            r.offset is None,
    {
        ListStaffInput { tenant_id: None, limit: None, offset: None }
    }
}

#[derive(Debug)]
pub struct DeleteStaffInput {
    pub id: StaffId,
}

} // verus!
