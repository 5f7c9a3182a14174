//! The use-case layer over the in-memory repositories: creation
//! timestamps, the existence check before update, the partial-update
//! merge, idempotent deletes, and the end-to-end flow.

use oxidize::error::ErrorCategory;
use oxidize::repository::tenant::TenantRepository;
use oxidize::input::staff::{CreateStaffInput, DeleteStaffInput, GetStaffInput, UpdateStaffInput};
use oxidize::input::tenant::{
    CreateTenantInput, DeleteTenantInput, GetTenantInput, UpdateTenantInput,
};
use oxidize::interactor::staff::StaffInteractor;
use oxidize::interactor::tenant::TenantInteractor;
use oxidize::memory::staff::MemoryStaffRepository;
use oxidize::memory::tenant::MemoryTenantRepository;
use oxidize::staff::StaffId;
use oxidize::staff_role::StaffRole;
use oxidize::tenant::TenantId;
use oxidize::wire::parse_role;

fn tenant_interactor() -> TenantInteractor<MemoryTenantRepository> {
    TenantInteractor::new(MemoryTenantRepository::new())
}

fn staff_interactor() -> StaffInteractor<MemoryStaffRepository> {
    StaffInteractor::new(MemoryStaffRepository::new())
}

fn staff_input(auth: &str, name: &str, email: &str) -> CreateStaffInput {
    CreateStaffInput {
        tenant_id: TenantId::new(),
        role: StaffRole::Normal,
        auth_uid: auth.to_string(),
        display_name: name.to_string(),
        image_path: "/img.png".to_string(),
        email: email.to_string(),
    }
}

#[test]
fn created_entities_have_equal_timestamps() {
    let mut tenants = tenant_interactor();
    let t = tenants
        .create(CreateTenantInput { name: "Acme".to_string() })
        .unwrap();
    assert_eq!(t.created_at, t.updated_at);

    let mut staffs = staff_interactor();
    let s = staffs.create(staff_input("u1", "Jo", "jo@x.com")).unwrap();
    assert_eq!(s.created_at, s.updated_at);
}

#[test]
fn updated_at_is_non_decreasing_across_updates() {
    let mut tenants = tenant_interactor();
    let t = tenants
        .create_at(CreateTenantInput { name: "Acme".to_string() }, 1_000)
        .unwrap();
    let t1 = tenants
        .update_at(UpdateTenantInput { id: t.id.clone(), name: None }, 2_000)
        .unwrap();
    assert!(t1.updated_at >= t.updated_at);
    let t2 = tenants
        .update_at(UpdateTenantInput { id: t.id.clone(), name: None }, 2_000)
        .unwrap();
    assert!(t2.updated_at >= t1.updated_at);
}

#[test]
fn updating_missing_tenant_gives_tenant_not_found() {
    let mut tenants = tenant_interactor();
    let err = tenants
        .update(UpdateTenantInput {
            id: TenantId::from_string("no-such-id".to_string()),
            name: Some("X".to_string()),
        })
        .unwrap_err();
    assert_eq!(err.code, "E200101");
    assert_eq!(err.category, ErrorCategory::NotFound);
}

#[test]
fn updating_missing_staff_gives_staff_not_found() {
    let mut staffs = staff_interactor();
    let err = staffs
        .update(UpdateStaffInput {
            id: StaffId::from_string("no-such-id".to_string()),
            role: None,
            display_name: None,
            image_path: None,
            email: None,
        })
        .unwrap_err();
    assert_eq!(err.code, "E200201");
    assert_eq!(err.category, ErrorCategory::NotFound);
}

#[test]
fn empty_update_advances_updated_at_and_nothing_else() {
    let mut tenants = tenant_interactor();
    let t = tenants
        .create_at(CreateTenantInput { name: "Acme".to_string() }, 1_000)
        .unwrap();
    let t1 = tenants
        .update_at(UpdateTenantInput { id: t.id.clone(), name: None }, 5_000)
        .unwrap();
    assert_eq!(t1.updated_at, 5_000);
    assert_eq!(t1.name, "Acme");
    assert_eq!(t1.created_at, 1_000);
    assert_eq!(t1.id.as_str(), t.id.as_str());
}

#[test]
fn staff_partial_update_keeps_absent_fields() {
    let mut staffs = staff_interactor();
    let mut input = staff_input("u1", "Old Name", "a@x.com");
    input.role = StaffRole::Normal;
    let s = staffs.create_at(input, 1_000).unwrap();

    let merged = staffs
        .update_at(
            UpdateStaffInput {
                id: s.id.clone(),
                role: None,
                display_name: Some("New".to_string()),
                image_path: None,
                email: None,
            },
            2_000,
        )
        .unwrap();
    assert_eq!(merged.display_name, "New");
    assert_eq!(merged.email, "a@x.com");
    assert_eq!(merged.role, StaffRole::Normal);
    assert_eq!(merged.image_path, "/img.png");
    assert_eq!(merged.auth_uid, "u1");
    assert_eq!(merged.created_at, 1_000);
    assert_eq!(merged.updated_at, 2_000);
}

#[test]
fn merged_update_is_visible_on_get() {
    let mut staffs = staff_interactor();
    let s = staffs.create_at(staff_input("u1", "Jo", "a@x.com"), 1_000).unwrap();
    staffs
        .update_at(
            UpdateStaffInput {
                id: s.id.clone(),
                role: Some(StaffRole::Admin),
                display_name: None,
                image_path: None,
                email: Some("new@x.com".to_string()),
            },
            2_000,
        )
        .unwrap();
    let got = staffs
        .get(GetStaffInput { id: Some(s.id.clone()), auth_uid: None, with_tenant: false })
        .unwrap()
        .unwrap();
    assert_eq!(got.email, "new@x.com");
    assert_eq!(got.role, StaffRole::Admin);
    assert_eq!(got.display_name, "Jo");
    assert_eq!(got.updated_at, 2_000);
}

#[test]
fn deleting_missing_id_succeeds_and_twice_in_a_row() {
    let mut tenants = tenant_interactor();
    assert!(tenants
        .delete(DeleteTenantInput { id: TenantId::from_string("ghost".to_string()) })
        .is_ok());

    let t = tenants
        .create(CreateTenantInput { name: "Acme".to_string() })
        .unwrap();
    assert!(tenants
        .delete(DeleteTenantInput { id: t.id.clone() })
        .is_ok());
    assert!(tenants
        .delete(DeleteTenantInput { id: t.id.clone() })
        .is_ok());
    assert!(tenants
        .get(GetTenantInput { id: t.id.clone() })
        .unwrap()
        .is_none());

    let mut staffs = staff_interactor();
    assert!(staffs
        .delete(DeleteStaffInput { id: StaffId::from_string("ghost".to_string()) })
        .is_ok());
    assert!(staffs
        .delete(DeleteStaffInput { id: StaffId::from_string("ghost".to_string()) })
        .is_ok());
}

#[test]
fn end_to_end_create_get_and_admin_staff() {
    let mut tenants = tenant_interactor();
    let created = tenants
        .create(CreateTenantInput { name: "Acme".to_string() })
        .unwrap();
    assert!(!created.id.as_str().is_empty());

    let got = tenants
        .get(GetTenantInput { id: created.id.clone() })
        .unwrap()
        .unwrap();
    assert_eq!(got.name, "Acme");
    assert_eq!(got.id.as_str(), created.id.as_str());

    let mut staffs = staff_interactor();
    let s = staffs
        .create(CreateStaffInput {
            tenant_id: created.id.clone(),
            role: parse_role("admin"),
            auth_uid: "auth-1".to_string(),
            display_name: "Boss".to_string(),
            image_path: "".to_string(),
            email: "boss@acme.com".to_string(),
        })
        .unwrap();
    assert_eq!(s.role, StaffRole::Admin);
    assert!(s.is_admin());
    assert_eq!(s.tenant_id.as_str(), created.id.as_str());
}

#[test]
fn get_staff_by_auth_uid_and_by_nothing() {
    let mut staffs = staff_interactor();
    let s = staffs.create_at(staff_input("auth-7", "Jo", "jo@x.com"), 10).unwrap();
    let got = staffs
        .get(GetStaffInput { id: None, auth_uid: Some("auth-7".to_string()), with_tenant: false })
        .unwrap()
        .unwrap();
    assert_eq!(got.id.as_str(), s.id.as_str());

    let none = staffs
        .get(GetStaffInput { id: None, auth_uid: None, with_tenant: false })
        .unwrap();
    assert!(none.is_none());

    let absent = staffs
        .get(GetStaffInput {
            id: Some(s.id.clone()),
            auth_uid: Some("someone-else".to_string()),
            with_tenant: false,
        })
        .unwrap();
    assert!(absent.is_none());
}

#[test]
fn duplicate_identifier_is_rejected_as_internal() {
    let mut repo = MemoryTenantRepository::new();
    let t = oxidize::tenant::Tenant::new("Acme".to_string(), 5);
    let copy = t.clone();
    assert!(repo.create(&t).is_ok());
    let err = repo.create(&copy).unwrap_err();
    assert_eq!(err.category, ErrorCategory::Internal);
}
