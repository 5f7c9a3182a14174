//! The transport adapters' verified half: decoding wire fields into
//! interactor inputs (lenient role parsing) and encoding entities into
//! wire messages, timestamps rendered in the textual, timezone-aware,
//! sortable form.

use vstd::prelude::*;

use crate::bridge::{format_rfc3339, lower_of, lowercase, rfc3339_of, ts_in_range};
use crate::output::{ListStaffOutput, ListTenantOutput};
use crate::staff::Staff;
use crate::staff_role::StaffRole;
use crate::tenant::Tenant;

verus! {

/// The role text a wire request carries, folded to lowercase before
/// the lenient parse: unrecognized text becomes `Unknown`.
pub fn parse_role(role: &str) -> (r: StaffRole)
    ensures
        r == StaffRole::spec_parse(lower_of(role@)),
{
    let lower = lowercase(role);
    StaffRole::parse_str(lower.as_str())
}

/// A tenant as the RPC surface carries it.
#[derive(Debug)]
pub struct ProtoTenant {
    pub id: String,
    pub name: String,
    pub created_at: String,
    pub updated_at: String,
}

pub fn to_proto_tenant(t: Tenant) -> (r: ProtoTenant)
    requires
        ts_in_range(t@.created_at),
        ts_in_range(t@.updated_at),
    ensures
        r.id@ == t@.id,
        r.name@ == t@.name,
        r.created_at@ == rfc3339_of(t@.created_at),
        r.updated_at@ == rfc3339_of(t@.updated_at),
{
    ProtoTenant {
        id: t.id.as_str().to_owned(),
        name: t.name,
        created_at: format_rfc3339(t.created_at),
        updated_at: format_rfc3339(t.updated_at),
    }
}

/// A staff member as the RPC surface carries it.
#[derive(Debug)]
pub struct ProtoStaff {
    pub id: String,
    pub tenant_id: String,
    pub role: String,
    pub auth_uid: String,
    pub display_name: String,
    pub image_path: String,
    pub email: String,
    pub created_at: String,
    pub updated_at: String,
}

pub fn to_proto_staff(s: Staff) -> (r: ProtoStaff)
    requires
        ts_in_range(s@.created_at),
        ts_in_range(s@.updated_at),
    ensures
        r.id@ == s@.id,
        r.tenant_id@ == s@.tenant_id,
        r.role@ == s@.role.spec_str(),
        r.auth_uid@ == s@.auth_uid,
        r.display_name@ == s@.display_name,
        r.image_path@ == s@.image_path,
        r.email@ == s@.email,
        r.created_at@ == rfc3339_of(s@.created_at),
        r.updated_at@ == rfc3339_of(s@.updated_at),
{
    ProtoStaff {
        id: s.id.as_str().to_owned(),
        tenant_id: s.tenant_id.as_str().to_owned(),
        role: s.role.to_string(),
        auth_uid: s.auth_uid,
        display_name: s.display_name,
        image_path: s.image_path,
        email: s.email,
        created_at: format_rfc3339(s.created_at),
        updated_at: format_rfc3339(s.updated_at),
    }
}

/// The health check's body.
#[derive(Debug)]
pub struct HealthResponse {
    pub status: &'static str,
}

pub fn health_response() -> (r: HealthResponse)
    ensures
        r.status@ == "ok"@,
{
    HealthResponse { status: "ok" }
}

/// One tenant row of the read-only HTTP surface.
#[derive(Debug)]
pub struct TenantResponse {
    pub id: String,
    pub name: String,
}

/// The tenant list of the read-only HTTP surface.
#[derive(Debug)]
pub struct ListTenantsResponse {
    pub tenants: Vec<TenantResponse>,
    pub total_count: u64,
}

pub fn to_list_tenants_response(out: ListTenantOutput) -> (r: ListTenantsResponse)
    ensures
        r.total_count == out.total_count,
        r.tenants@.len() == out.tenants@.len(),
        forall|i: int|
            0 <= i < r.tenants@.len() ==> (#[trigger] r.tenants@[i]).id@ == out.tenants@[i]@.id
                && r.tenants@[i].name@ == out.tenants@[i]@.name,
{
    let mut tenants: Vec<TenantResponse> = Vec::new();
    let n = out.tenants.len();
    let mut i: usize = 0;
    while i < n
        invariant
            i <= n,
            n == out.tenants@.len(),
            tenants@.len() == i,
            forall|k: int|
                0 <= k < i ==> (#[trigger] tenants@[k]).id@ == out.tenants@[k]@.id
                    && tenants@[k].name@ == out.tenants@[k]@.name,
        decreases n - i,
    {
        let t = &out.tenants[i];
        tenants.push(TenantResponse { id: t.id.as_str().to_owned(), name: t.name.clone() });
        i += 1;
    }
    ListTenantsResponse { tenants, total_count: out.total_count }
}

/// One staff row of the read-only HTTP surface.
#[derive(Debug)]
pub struct StaffResponse {
    pub id: String,
    pub tenant_id: String,
    pub display_name: String,
    pub email: String,
}

/// The staff list of the read-only HTTP surface.
#[derive(Debug)]
pub struct ListStaffsResponse {
    pub staffs: Vec<StaffResponse>,
    pub total_count: u64,
}

pub fn to_list_staffs_response(out: ListStaffOutput) -> (r: ListStaffsResponse)
    ensures
        r.total_count == out.total_count,
        r.staffs@.len() == out.staff@.len(),
        forall|i: int|
            0 <= i < r.staffs@.len() ==> (#[trigger] r.staffs@[i]).id@ == out.staff@[i]@.id
                && r.staffs@[i].tenant_id@ == out.staff@[i]@.tenant_id
                && r.staffs@[i].display_name@ == out.staff@[i]@.display_name
                && r.staffs@[i].email@ == out.staff@[i]@.email,
{
    let mut staffs: Vec<StaffResponse> = Vec::new();
    let n = out.staff.len();
    let mut i: usize = 0;
    while i < n
        invariant
            i <= n,
            n == out.staff@.len(),
            staffs@.len() == i,
            forall|k: int|
                0 <= k < i ==> (#[trigger] staffs@[k]).id@ == out.staff@[k]@.id
                    && staffs@[k].tenant_id@ == out.staff@[k]@.tenant_id
                    && staffs@[k].display_name@ == out.staff@[k]@.display_name
                    && staffs@[k].email@ == out.staff@[k]@.email,
        decreases n - i,
    {
        let s = &out.staff[i];
        staffs.push(
            StaffResponse {
                id: s.id.as_str().to_owned(),
                tenant_id: s.tenant_id.as_str().to_owned(),
                display_name: s.display_name.clone(),
                email: s.email.clone(),
            },
        );
        i += 1;
    }
    ListStaffsResponse { staffs, total_count: out.total_count }
}

} // verus!
