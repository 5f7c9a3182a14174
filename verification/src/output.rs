//! Output DTOs: what the list use-cases hand back, a page of rows
//! bundled with the total count under the same filter.

use vstd::prelude::*;

use crate::staff::Staff;
use crate::tenant::Tenant;

verus! {

#[derive(Debug)]
pub struct ListTenantOutput {
    pub tenants: Vec<Tenant>,
    pub total_count: u64,
}

#[derive(Debug)]
pub struct ListStaffOutput {
    pub staff: Vec<Staff>,
    pub total_count: u64,
}

} // verus!
