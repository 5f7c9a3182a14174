//! Listing and counting: the count reflects the filter rather than the
//! page, rows come back newest first, and the staff filter selects by
//! owning tenant.

use oxidize::input::staff::{CreateStaffInput, ListStaffInput};
use oxidize::input::tenant::{CreateTenantInput, ListTenantInput};
use oxidize::interactor::staff::StaffInteractor;
use oxidize::interactor::tenant::TenantInteractor;
use oxidize::memory::staff::MemoryStaffRepository;
use oxidize::memory::tenant::MemoryTenantRepository;
use oxidize::staff_role::StaffRole;
use oxidize::tenant::{Tenant, TenantId};

fn seeded_tenants() -> (TenantInteractor<MemoryTenantRepository>, Vec<Tenant>) {
    let mut inter = TenantInteractor::new(MemoryTenantRepository::new());
    let mut created = Vec::new();
    for (i, name) in ["One", "Two", "Three"].iter().enumerate() {
        let t = inter
            .create_at(
                CreateTenantInput { name: name.to_string() },
                1_000 + (i as i64) * 1_000,
            )
            .unwrap();
        created.push(t);
    }
    (inter, created)
}

#[test]
fn count_equals_rows_without_pagination() {
    let (inter, _) = seeded_tenants();
    let out = inter
        .list(ListTenantInput { limit: None, offset: None })
        .unwrap();
    assert_eq!(out.total_count, 3);
    assert_eq!(out.tenants.len() as u64, out.total_count);
}

#[test]
fn count_is_at_least_rows_with_a_limit() {
    let (inter, _) = seeded_tenants();
    let out = inter
        .list(ListTenantInput { limit: Some(2), offset: None })
        .unwrap();
    assert_eq!(out.tenants.len(), 2);
    assert_eq!(out.total_count, 3);
    assert!(out.total_count >= out.tenants.len() as u64);

    let tail = inter
        .list(ListTenantInput { limit: Some(10), offset: Some(2) })
        .unwrap();
    assert_eq!(tail.tenants.len(), 1);
    assert_eq!(tail.total_count, 3);

    let beyond = inter
        .list(ListTenantInput { limit: Some(5), offset: Some(9) })
        .unwrap();
    assert_eq!(beyond.tenants.len(), 0);
    assert_eq!(beyond.total_count, 3);
}

#[test]
fn rows_come_back_newest_first() {
    let (inter, _) = seeded_tenants();
    let out = inter
        .list(ListTenantInput { limit: None, offset: None })
        .unwrap();
    let names: Vec<&str> = out.tenants.iter().map(|t| t.name.as_str()).collect();
    assert_eq!(names, ["Three", "Two", "One"]);
    assert!(out.tenants[0].created_at >= out.tenants[1].created_at);
    assert!(out.tenants[1].created_at >= out.tenants[2].created_at);
}

#[test]
fn staff_list_filters_by_owning_tenant() {
    let mut inter = StaffInteractor::new(MemoryStaffRepository::new());
    let acme = TenantId::new();
    let globex = TenantId::new();
    for (i, (tid, name)) in [(&acme, "A1"), (&globex, "G1"), (&acme, "A2")]
        .iter()
        .enumerate()
    {
        inter
            .create_at(
                CreateStaffInput {
                    tenant_id: (*tid).clone(),
                    role: StaffRole::Normal,
                    auth_uid: format!("auth-{}", i),
                    display_name: name.to_string(),
                    image_path: "".to_string(),
                    email: format!("{}@x.com", i),
                },
                1_000 + (i as i64) * 500,
            )
            .unwrap();
    }

    let all = inter
        .list(ListStaffInput { tenant_id: None, limit: None, offset: None })
        .unwrap();
    assert_eq!(all.total_count, 3);
    assert_eq!(all.staff.len(), 3);

    let acme_only = inter
        .list(ListStaffInput { tenant_id: Some(acme.clone()), limit: None, offset: None })
        .unwrap();
    assert_eq!(acme_only.total_count, 2);
    assert_eq!(acme_only.staff.len(), 2);
    for s in &acme_only.staff {
        assert_eq!(s.tenant_id.as_str(), acme.as_str());
    }
    let names: Vec<&str> = acme_only.staff.iter().map(|s| s.display_name.as_str()).collect();
    assert_eq!(names, ["A2", "A1"]);

    let paged = inter
        .list(ListStaffInput { tenant_id: Some(acme.clone()), limit: Some(1), offset: None })
        .unwrap();
    assert_eq!(paged.staff.len(), 1);
    assert_eq!(paged.total_count, 2);
}

#[test]
fn ties_on_creation_time_put_the_latest_insert_first() {
    let mut inter = TenantInteractor::new(MemoryTenantRepository::new());
    inter
        .create_at(CreateTenantInput { name: "First".to_string() }, 1_000)
        .unwrap();
    inter
        .create_at(CreateTenantInput { name: "Second".to_string() }, 1_000)
        .unwrap();
    let out = inter
        .list(ListTenantInput { limit: None, offset: None })
        .unwrap();
    let names: Vec<&str> = out.tenants.iter().map(|t| t.name.as_str()).collect();
    assert_eq!(names, ["Second", "First"]);
}
