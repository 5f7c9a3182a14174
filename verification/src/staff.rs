//! The Staff entity: owned by a tenant, carrying a role, an external
//! auth identifier, profile fields, timestamps, and two transient
//! fields (a derived image URL and an optionally attached tenant
//! snapshot) that are never persisted.

use vstd::prelude::*;

use crate::bridge::fresh_id;
use crate::staff_role::StaffRole;
use crate::tenant::{Tenant, TenantId, TenantView};

verus! {

#[derive(Debug, PartialEq, Eq)]
pub struct StaffId(String);

impl View for StaffId {
    type V = Seq<char>;

    closed spec fn view(&self) -> Seq<char> {
        self.0@
    }
}

impl DeepView for StaffId {
    type V = Seq<char>;

    open spec fn deep_view(&self) -> Seq<char> {
        self@
    }
}

impl StaffId {
    /// A fresh random unique token; always 36 characters, so never
    /// empty.
    pub fn new() -> (r: Self)
        ensures
            r@.len() == 36,
    {
        StaffId(fresh_id())
    }

    pub fn from_string(id: String) -> (r: Self)
        ensures
            r@ == id@,
    {
        StaffId(id)
    }

    pub fn as_str(&self) -> (r: &str)
        ensures
            r@ == self@,
    {
        self.0.as_str()
    }
}

impl Clone for StaffId {
    fn clone(&self) -> (r: Self)
        ensures
            r == *self,
    {
        StaffId(self.0.clone())
    }
}

impl Default for StaffId {
    fn default() -> (r: Self)
        ensures
            r@.len() == 36,
    {
        Self::new()
    }
}

/// The mathematical value of a staff member.
#[verifier::ext_equal]
pub ghost struct StaffView {
    pub id: Seq<char>,
    pub tenant_id: Seq<char>,
    pub role: StaffRole,
    pub auth_uid: Seq<char>,
    pub display_name: Seq<char>,
    pub image_path: Seq<char>,
    pub email: Seq<char>,
    pub created_at: int,
    pub updated_at: int,
    pub image_url: Option<Seq<char>>,
    pub tenant: Option<TenantView>,
}

#[derive(Debug)]
pub struct Staff {
    pub id: StaffId,
    pub tenant_id: TenantId,
    pub role: StaffRole,
    pub auth_uid: String,
    pub display_name: String,
    pub image_path: String,
    pub email: String,
    pub created_at: i64,
    pub updated_at: i64,
    /// Computed, never persisted.
    pub image_url: Option<String>,
    /// Loaded separately on request, never persisted or written back.
    pub tenant: Option<Tenant>,
}

impl View for Staff {
    type V = StaffView;

    open spec fn view(&self) -> StaffView {
        StaffView {
            id: self.id@,
            tenant_id: self.tenant_id@,
            role: self.role,
            auth_uid: self.auth_uid@,
            display_name: self.display_name@,
            image_path: self.image_path@,
            email: self.email@,
            created_at: self.created_at as int,
            updated_at: self.updated_at as int,
            image_url: self.image_url.deep_view(),
            tenant: match self.tenant {
                Some(t) => Some(t@),
                None => None,
            },
        }
    }
}

/// What persistence keeps of a staff value: the transient fields are
/// excluded from the mapping.
pub open spec fn persisted_staff(v: StaffView) -> StaffView {
    StaffView { image_url: None, tenant: None, ..v }
}

/// The partial-update merge for staff: each present optional input
/// field overwrites the entity field, each absent one leaves it
/// untouched; `updated_at` is always refreshed; identifier, owning
/// tenant, auth identifier and `created_at` never change.
pub open spec fn merge_staff(
    v: StaffView,
    role: Option<StaffRole>,
    display_name: Option<Seq<char>>,
    image_path: Option<Seq<char>>,
    email: Option<Seq<char>>,
    now: int,
) -> StaffView {
    StaffView {
        role: match role {
            Some(r) => r,
            None => v.role,
        },
        display_name: match display_name {
            Some(d) => d,
            None => v.display_name,
        },
        image_path: match image_path {
            Some(p) => p,
            None => v.image_path,
        },
        email: match email {
            Some(e) => e,
            None => v.email,
        },
        updated_at: now,
        ..v
    }
}

impl Staff {
    /// A fresh staff member: new identifier, both timestamps equal to
    /// `now`, transient fields unset.
    pub fn new(
        tenant_id: TenantId,
        role: StaffRole,
        auth_uid: String,
        display_name: String,
        image_path: String,
        email: String,
        now: i64,
    ) -> (r: Self)
        ensures
            r@.id.len() == 36,
            r@.tenant_id == tenant_id@,
            r@.role == role,
            r@.auth_uid == auth_uid@,
            r@.display_name == display_name@,
            r@.image_path == image_path@,
            r@.email == email@,
            r@.created_at == now as int,
            r@.updated_at == now as int,
            r@.image_url is None,
            r@.tenant is None,
    {
        Staff {
            id: StaffId::new(),
            tenant_id,
            role,
            auth_uid,
            display_name,
            image_path,
            email,
            created_at: now,
            updated_at: now,
            image_url: None,
            tenant: None,
        }
    }

    pub fn set_image_url(&mut self, url: String)
        ensures
            final(self)@ == (StaffView { image_url: Some(url@), ..old(self)@ }),
    {
        self.image_url = Some(url);
        proof {
            assert(self@ =~= (StaffView { image_url: Some(url@), ..old(self)@ }));
        }
    }

    pub fn set_tenant(&mut self, tenant: Tenant)
        ensures
            final(self)@ == (StaffView { tenant: Some(tenant@), ..old(self)@ }),
    {
        self.tenant = Some(tenant);
        proof {
            assert(self@ =~= (StaffView { tenant: Some(tenant@), ..old(self)@ }));
        }
    }

    pub fn is_admin(&self) -> (r: bool)
        ensures
            r == (self@.role is Admin),
    {
        self.role.is_admin()
    }
}

impl Clone for Staff {
    fn clone(&self) -> (r: Self)
        ensures
            r@ == self@,
    {
        let image_url = match &self.image_url {
            Some(u) => Some(u.clone()),
            None => None,
        };
        let tenant = match &self.tenant {
            Some(t) => Some(t.clone()),
            None => None,
        };
        let r = Staff {
            id: self.id.clone(),
            tenant_id: self.tenant_id.clone(),
            role: self.role,
            auth_uid: self.auth_uid.clone(),
            display_name: self.display_name.clone(),
            image_path: self.image_path.clone(),
            email: self.email.clone(),
            created_at: self.created_at,
            updated_at: self.updated_at,
            image_url,
            tenant,
        };
        proof {
            assert(r@ =~= self@);
        }
        r
    }
}

} // verus!
