//! Inputs for the tenant use-cases.

use vstd::prelude::*;

use crate::tenant::TenantId;

verus! {

#[derive(Debug)]
pub struct CreateTenantInput {
    pub name: String,
}

#[derive(Debug)]
pub struct UpdateTenantInput {
    pub id: TenantId,
    pub name: Option<String>,
}

#[derive(Debug)]
pub struct GetTenantInput {
    pub id: TenantId,
}

#[derive(Debug)]
pub struct ListTenantInput {
    pub limit: Option<u64>,
    pub offset: Option<u64>,
}

impl Default for ListTenantInput {
    fn default() -> (r: Self)
        ensures
            r.limit is None,
            r.offset is None,
    {
        ListTenantInput { limit: None, offset: None }
    }
}

#[derive(Debug)]
pub struct DeleteTenantInput {
    pub id: TenantId,
}

} // verus!
