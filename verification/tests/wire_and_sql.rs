//! The transport and persistence halves that live in the library: wire
//! encoding with textual timestamps, lenient role decoding with case
//! folding, HTTP response shaping, and the SQL text builders.

use oxidize::database::staff::{
    staff_count_sql, staff_delete_sql, staff_from_row, staff_get_sql, staff_insert_sql,
    staff_list_sql, staff_update_sql, StaffRow,
};
use oxidize::database::tenant::{
    tenant_count_sql, tenant_delete_sql, tenant_from_row, tenant_get_sql, tenant_insert_sql,
    tenant_list_sql, tenant_update_sql, TenantRow,
};
use oxidize::database::u64_to_dec;
use oxidize::output::{ListStaffOutput, ListTenantOutput};
use oxidize::repository::staff::{GetStaffQuery, ListStaffQuery};
use oxidize::repository::tenant::ListTenantQuery;
use oxidize::staff::{Staff, StaffId};
use oxidize::staff_role::StaffRole;
use oxidize::tenant::{Tenant, TenantId};
use oxidize::wire::{
    health_response, parse_role, to_list_staffs_response, to_list_tenants_response,
    to_proto_staff, to_proto_tenant,
};

#[test]
fn parse_role_folds_case_before_matching() {
    assert_eq!(parse_role("ADMIN"), StaffRole::Admin);
    assert_eq!(parse_role("Admin"), StaffRole::Admin);
    assert_eq!(parse_role("normal"), StaffRole::Normal);
    assert_eq!(parse_role("NoRmAl"), StaffRole::Normal);
    assert_eq!(parse_role("director"), StaffRole::Unknown);
    assert_eq!(parse_role(""), StaffRole::Unknown);
}

#[test]
fn proto_tenant_renders_rfc3339_timestamps() {
    let t = Tenant {
        id: TenantId::from_string("t-1".to_string()),
        name: "Acme".to_string(),
        tags: Vec::new(),
        created_at: 0,
        updated_at: 1_000_000_000_000,
    };
    let p = to_proto_tenant(t);
    assert_eq!(p.id, "t-1");
    assert_eq!(p.name, "Acme");
    assert_eq!(p.created_at, "1970-01-01T00:00:00+00:00");
    assert_eq!(p.updated_at, "2001-09-09T01:46:40+00:00");
}

#[test]
fn proto_staff_carries_role_name_and_timestamps() {
    let s = Staff {
        id: StaffId::from_string("s-1".to_string()),
        tenant_id: TenantId::from_string("t-1".to_string()),
        role: StaffRole::Admin,
        auth_uid: "auth".to_string(),
        display_name: "Jo".to_string(),
        image_path: "/img.png".to_string(),
        email: "jo@x.com".to_string(),
        created_at: 0,
        updated_at: 1_500,
        image_url: None,
        tenant: None,
    };
    let p = to_proto_staff(s);
    assert_eq!(p.id, "s-1");
    assert_eq!(p.tenant_id, "t-1");
    assert_eq!(p.role, "admin");
    assert_eq!(p.auth_uid, "auth");
    assert_eq!(p.email, "jo@x.com");
    assert_eq!(p.created_at, "1970-01-01T00:00:00+00:00");
    assert_eq!(p.updated_at, "1970-01-01T00:00:01.500+00:00");
}

#[test]
fn health_reports_ok() {
    assert_eq!(health_response().status, "ok");
}

#[test]
fn http_responses_project_the_right_fields() {
    let t = Tenant {
        id: TenantId::from_string("t-9".to_string()),
        name: "Acme".to_string(),
        tags: Vec::new(),
        created_at: 1,
        updated_at: 1,
    };
    let out = to_list_tenants_response(ListTenantOutput { tenants: vec![t], total_count: 4 });
    assert_eq!(out.total_count, 4);
    assert_eq!(out.tenants.len(), 1);
    assert_eq!(out.tenants[0].id, "t-9");
    assert_eq!(out.tenants[0].name, "Acme");

    let s = Staff {
        id: StaffId::from_string("s-9".to_string()),
        tenant_id: TenantId::from_string("t-9".to_string()),
        role: StaffRole::Normal,
        auth_uid: "auth".to_string(),
        display_name: "Jo".to_string(),
        image_path: "/img.png".to_string(),
        email: "jo@x.com".to_string(),
        created_at: 1,
        updated_at: 1,
        image_url: None,
        tenant: None,
    };
    let out = to_list_staffs_response(ListStaffOutput { staff: vec![s], total_count: 2 });
    assert_eq!(out.total_count, 2);
    assert_eq!(out.staffs.len(), 1);
    assert_eq!(out.staffs[0].id, "s-9");
    assert_eq!(out.staffs[0].tenant_id, "t-9");
    assert_eq!(out.staffs[0].display_name, "Jo");
    assert_eq!(out.staffs[0].email, "jo@x.com");
}

#[test]
fn rows_map_to_entities_with_lenient_roles() {
    let t = tenant_from_row(TenantRow {
        id: "t-1".to_string(),
        name: "Acme".to_string(),
        created_at: 10,
        updated_at: 20,
    });
    assert_eq!(t.id.as_str(), "t-1");
    assert_eq!(t.name, "Acme");
    assert!(t.tags.is_empty());
    assert_eq!(t.created_at, 10);
    assert_eq!(t.updated_at, 20);

    let row = StaffRow {
        id: "s-1".to_string(),
        tenant_id: "t-1".to_string(),
        role: "admin".to_string(),
        auth_uid: "auth".to_string(),
        display_name: "Jo".to_string(),
        image_path: "".to_string(),
        email: "jo@x.com".to_string(),
        created_at: 10,
        updated_at: 20,
    };
    let s = staff_from_row(row);
    assert_eq!(s.role, StaffRole::Admin);
    assert!(s.image_url.is_none());
    assert!(s.tenant.is_none());

    let odd = StaffRow {
        id: "s-2".to_string(),
        tenant_id: "t-1".to_string(),
        role: "chief".to_string(),
        auth_uid: "auth2".to_string(),
        display_name: "Jo".to_string(),
        image_path: "".to_string(),
        email: "jo@x.com".to_string(),
        created_at: 10,
        updated_at: 20,
    };
    assert_eq!(staff_from_row(odd).role, StaffRole::Unknown);
}

#[test]
fn decimal_rendering_is_exact() {
    assert_eq!(u64_to_dec(0), "0");
    assert_eq!(u64_to_dec(7), "7");
    assert_eq!(u64_to_dec(10), "10");
    assert_eq!(u64_to_dec(205), "205");
    assert_eq!(u64_to_dec(18_446_744_073_709_551_615), "18446744073709551615");
}

#[test]
fn list_sql_appends_requested_pagination() {
    let q = ListTenantQuery { limit: None, offset: None };
    assert_eq!(tenant_list_sql(&q), "SELECT * FROM tenants ORDER BY created_at DESC");
    let q = ListTenantQuery { limit: Some(25), offset: Some(7) };
    assert_eq!(
        tenant_list_sql(&q),
        "SELECT * FROM tenants ORDER BY created_at DESC LIMIT 25 OFFSET 7"
    );
    let q = ListTenantQuery { limit: Some(5), offset: None };
    assert_eq!(tenant_list_sql(&q), "SELECT * FROM tenants ORDER BY created_at DESC LIMIT 5");

    let q = ListStaffQuery { tenant_id: None, limit: None, offset: Some(3) };
    assert_eq!(
        staff_list_sql(&q),
        "SELECT * FROM staffs ORDER BY created_at DESC OFFSET 3"
    );
    let q = ListStaffQuery {
        tenant_id: Some(TenantId::from_string("t".to_string())),
        limit: Some(2),
        offset: None,
    };
    assert_eq!(
        staff_list_sql(&q),
        "SELECT * FROM staffs WHERE 1=1 AND tenant_id = $1 ORDER BY created_at DESC LIMIT 2"
    );
}

#[test]
fn fixed_sql_texts_match_the_schema() {
    assert_eq!(tenant_get_sql(), "SELECT * FROM tenants WHERE id = $1");
    assert_eq!(tenant_count_sql(), "SELECT COUNT(*) FROM tenants");
    assert_eq!(
        tenant_insert_sql(),
        "INSERT INTO tenants (id, name, created_at, updated_at) VALUES ($1, $2, $3, $4)"
    );
    assert_eq!(
        tenant_update_sql(),
        "UPDATE tenants SET name = $2, updated_at = $3 WHERE id = $1"
    );
    assert_eq!(tenant_delete_sql(), "DELETE FROM tenants WHERE id = $1");

    let both = GetStaffQuery {
        id: Some(StaffId::from_string("s".to_string())),
        auth_uid: Some("a".to_string()),
        with_tenant: false,
    };
    assert_eq!(
        staff_get_sql(&both),
        "SELECT * FROM staffs WHERE 1=1 AND id = $1 AND auth_uid = $2"
    );
    let by_id = GetStaffQuery {
        id: Some(StaffId::from_string("s".to_string())),
        auth_uid: None,
        with_tenant: false,
    };
    assert_eq!(staff_get_sql(&by_id), "SELECT * FROM staffs WHERE id = $1");
    let by_auth = GetStaffQuery { id: None, auth_uid: Some("a".to_string()), with_tenant: true };
    assert_eq!(staff_get_sql(&by_auth), "SELECT * FROM staffs WHERE auth_uid = $1");

    let unfiltered = ListStaffQuery { tenant_id: None, limit: None, offset: None };
    assert_eq!(staff_count_sql(&unfiltered), "SELECT COUNT(*) FROM staffs");
    let filtered = ListStaffQuery {
        tenant_id: Some(TenantId::from_string("t".to_string())),
        limit: None,
        offset: None,
    };
    assert_eq!(
        staff_count_sql(&filtered),
        "SELECT COUNT(*) FROM staffs WHERE tenant_id = $1"
    );
    assert_eq!(
        staff_insert_sql(),
        "INSERT INTO staffs (id, tenant_id, role, auth_uid, display_name, image_path, email, created_at, updated_at) VALUES ($1, $2, $3, $4, $5, $6, $7, $8, $9)"
    );
    assert_eq!(
        staff_update_sql(),
        "UPDATE staffs SET role = $2, display_name = $3, image_path = $4, email = $5, updated_at = $6 WHERE id = $1"
    );
    assert_eq!(staff_delete_sql(), "DELETE FROM staffs WHERE id = $1");
}
