//! The domain model: errors, enumerations, and entity construction.

use oxidize::error::{internal, invalid_argument, staff_not_found, tenant_not_found};
use oxidize::error::{DomainError, ErrorCategory};
use oxidize::staff::Staff;
use oxidize::staff_role::StaffRole;
use oxidize::tenant::{Tenant, TenantId};
use oxidize::tenant_tag_type::TenantTagType;

#[test]
fn test_error_creation() {
    let err = tenant_not_found();
    assert_eq!(err.code, "E200101");
    assert_eq!(err.category, ErrorCategory::NotFound);
}

fn may_fail(should_fail: bool) -> Result<String, DomainError> {
    if should_fail {
        return Err(internal());
    }
    Ok("success".to_string())
}

fn caller() -> Result<String, DomainError> {
    let result = may_fail(false)?;
    Ok(result)
}

#[test]
fn test_result_with_question_mark() {
    assert!(caller().is_ok());
}

#[test]
fn predefined_errors_carry_their_codes() {
    let e = internal();
    assert_eq!(e.code, "E100001");
    assert_eq!(e.category, ErrorCategory::Internal);
    assert_eq!(e.message, "Internal error");
    let e = invalid_argument();
    assert_eq!(e.code, "E100002");
    assert_eq!(e.category, ErrorCategory::BadRequest);
    let e = staff_not_found();
    assert_eq!(e.code, "E200201");
    assert_eq!(e.category, ErrorCategory::NotFound);
    let e = DomainError::bad_request("E900001", "odd input".to_string());
    assert_eq!(e.category, ErrorCategory::BadRequest);
    assert_eq!(e.message, "odd input");
}

#[test]
fn test_new_staff() {
    let now = 1_700_000_000_000i64;
    let staff = Staff::new(
        TenantId::new(),
        StaffRole::Normal,
        "auth123".to_string(),
        "John Doe".to_string(),
        "/images/john.png".to_string(),
        "john@example.com".to_string(),
        now,
    );

    assert_eq!(staff.display_name, "John Doe");
    assert_eq!(staff.role, StaffRole::Normal);
    assert!(!staff.is_admin());
}

#[test]
fn test_admin_staff() {
    let now = 1_700_000_000_000i64;
    let staff = Staff::new(
        TenantId::new(),
        StaffRole::Admin,
        "auth456".to_string(),
        "Admin User".to_string(),
        "".to_string(),
        "admin@example.com".to_string(),
        now,
    );

    assert!(staff.is_admin());
}

#[test]
fn staff_role_test_from_str() {
    assert_eq!("normal".parse::<StaffRole>().unwrap(), StaffRole::Normal);
    assert_eq!("admin".parse::<StaffRole>().unwrap(), StaffRole::Admin);
    assert_eq!("invalid".parse::<StaffRole>().unwrap(), StaffRole::Unknown);
}

#[test]
fn staff_role_test_is_valid() {
    assert!(!StaffRole::Unknown.is_valid());
    assert!(StaffRole::Normal.is_valid());
    assert!(StaffRole::Admin.is_valid());
}

#[test]
fn test_is_admin() {
    assert!(!StaffRole::Unknown.is_admin());
    assert!(!StaffRole::Normal.is_admin());
    assert!(StaffRole::Admin.is_admin());
}

#[test]
fn test_display() {
    assert_eq!(StaffRole::Normal.to_string(), "normal");
    assert_eq!(StaffRole::Admin.to_string(), "admin");
}

#[test]
fn test_new_tenant() {
    let now = 1_700_000_000_000i64;
    let tenant = Tenant::new("Test Tenant".to_string(), now);

    assert_eq!(tenant.name, "Test Tenant");
    assert!(tenant.tags.is_empty());
}

#[test]
fn test_update_tenant() {
    let now = 1_700_000_000_000i64;
    let mut tenant = Tenant::new("Original".to_string(), now);

    let later = now + 1_000;
    tenant.update(Some("Updated".to_string()), later);

    assert_eq!(tenant.name, "Updated");
    assert!(tenant.updated_at >= tenant.created_at);
}

#[test]
fn tenant_tag_type_test_from_str() {
    assert_eq!(
        "entertainment".parse::<TenantTagType>().unwrap(),
        TenantTagType::Entertainment
    );
    assert_eq!(
        "education".parse::<TenantTagType>().unwrap(),
        TenantTagType::Education
    );
    assert_eq!(
        "business".parse::<TenantTagType>().unwrap(),
        TenantTagType::Business
    );
    assert_eq!(
        "invalid".parse::<TenantTagType>().unwrap(),
        TenantTagType::Unknown
    );
}

#[test]
fn tenant_tag_type_test_is_valid() {
    assert!(!TenantTagType::Unknown.is_valid());
    assert!(TenantTagType::Entertainment.is_valid());
    assert!(TenantTagType::Education.is_valid());
}

#[test]
fn tag_type_other_and_names() {
    assert_eq!("other".parse::<TenantTagType>().unwrap(), TenantTagType::Other);
    assert_eq!(TenantTagType::Business.as_str(), "business");
    assert_eq!(TenantTagType::Unknown.to_string(), "unknown");
    assert_eq!(StaffRole::Unknown.as_str(), "unknown");
}

#[test]
fn fresh_identifiers_are_36_characters() {
    let t = Tenant::new("Acme".to_string(), 0);
    assert_eq!(t.id.as_str().len(), 36);
    let s = Staff::new(
        TenantId::new(),
        StaffRole::Normal,
        "a".to_string(),
        "b".to_string(),
        "c".to_string(),
        "d".to_string(),
        0,
    );
    assert_eq!(s.id.as_str().len(), 36);
    assert!(!s.tenant_id.as_str().is_empty());
}

#[test]
fn new_entities_share_one_timestamp() {
    let t = Tenant::new("Acme".to_string(), 123_456);
    assert_eq!(t.created_at, 123_456);
    assert_eq!(t.created_at, t.updated_at);
    let s = Staff::new(
        TenantId::new(),
        StaffRole::Admin,
        "a".to_string(),
        "b".to_string(),
        "c".to_string(),
        "d".to_string(),
        77,
    );
    assert_eq!(s.created_at, 77);
    assert_eq!(s.created_at, s.updated_at);
    assert!(s.image_url.is_none());
    assert!(s.tenant.is_none());
}
