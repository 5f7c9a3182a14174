//! The staff use-cases: orchestration over any conforming repository,
//! including the four-field partial-update merge.

use vstd::prelude::*;

use crate::bridge::now_millis;
use crate::error::{is_internal, is_staff_not_found, staff_not_found, DomainError};
use crate::input::staff::{
    CreateStaffInput, DeleteStaffInput, GetStaffInput, ListStaffInput, UpdateStaffInput,
};
use crate::output::ListStaffOutput;
use crate::repository::lemma_page_within_total;
use crate::repository::page;
use crate::repository::staff::{
    filter_staffs, has_staff, insert_staff, remove_staff, staff_ids_unique, staff_index,
    staff_matches_get, staff_query_selective, staff_with_id, store_staff, views_of_staffs,
    GetStaffQuery, ListStaffQuery, StaffRepository,
};
use crate::staff::{merge_staff, Staff, StaffView};

verus! {

pub struct StaffInteractor<R: StaffRepository> {
    repository: R,
}

impl<R: StaffRepository> StaffInteractor<R> {
    /// The repository's abstract contents, as the interactor sees
    /// them.
    pub closed spec fn staffs(&self) -> Seq<StaffView> {
        self.repository.staffs()
    }

    pub closed spec fn inv(&self) -> bool {
        self.repository.inv()
    }

    pub fn new(repository: R) -> (r: Self)
        ensures
            r.staffs() == repository.staffs(),
            r.inv() == repository.inv(),
    {
        StaffInteractor { repository }
    }

    /// Pass-through lookup by identifier and/or auth identifier (AND
    /// semantics): absence is `Ok(None)`, not an error.
    pub fn get(&self, input: GetStaffInput) -> (r: Result<Option<Staff>, DomainError>)
        requires
            self.inv(),
        ensures
            r matches Ok(Some(t)) ==> ({
                let query = GetStaffQuery {
                    id: input.id,
                    auth_uid: input.auth_uid,
                    with_tenant: input.with_tenant,
                };
                &&& staff_query_selective(query)
                &&& self.staffs().contains(t@)
                &&& staff_matches_get(t@, query)
                &&& (input.id matches Some(qid) ==> has_staff(self.staffs(), qid@) && t@
                    == staff_with_id(self.staffs(), qid@))
            }),
            r matches Ok(None) ==> ((input.id is Some || input.auth_uid is Some) ==> (forall|
                i: int,
            |
                0 <= i < self.staffs().len() ==> !staff_matches_get(
                    self.staffs()[i],
                    GetStaffQuery {
                        id: input.id,
                        auth_uid: input.auth_uid,
                        with_tenant: input.with_tenant,
                    },
                ))),
            r matches Err(e) ==> is_internal(e),
    {
        let query = GetStaffQuery {
            id: input.id,
            auth_uid: input.auth_uid,
            with_tenant: input.with_tenant,
        };
        self.repository.get(query)
    }

    /// A page of staff plus the total count under the same filter: the
    /// count reflects the filter, not the page, so it is never below
    /// the number of rows returned, and equals it when no pagination is
    /// requested.
    pub fn list(&self, input: ListStaffInput) -> (r: Result<ListStaffOutput, DomainError>)
        requires
            self.inv(),
        ensures
            r matches Ok(out) ==> ({
                let selected = filter_staffs(self.staffs(), input.tenant_id.deep_view());
                &&& views_of_staffs(out.staff@) == page(selected, input.limit, input.offset)
                &&& out.total_count as int == selected.len()
                &&& out.staff@.len() <= out.total_count
                &&& (input.limit is None && input.offset is None ==> out.staff@.len()
                    == out.total_count)
            }),
            r matches Err(e) ==> is_internal(e),
    {
        let query = ListStaffQuery {
            tenant_id: input.tenant_id,
            limit: input.limit,
            offset: input.offset,
        };
        let staff = match self.repository.list(query.clone()) {
            Ok(v) => v,
            Err(e) => {
                return Err(e);
            },
        };
        let total_count = match self.repository.count(query) {
            Ok(n) => n,
            Err(e) => {
                return Err(e);
            },
        };
        proof {
            lemma_page_within_total(
                filter_staffs(self.staffs(), input.tenant_id.deep_view()),
                input.limit,
                input.offset,
            );
        }
        Ok(ListStaffOutput { staff, total_count })
    }

    /// The deterministic core of `create`: builds the entity in memory
    /// with a fresh identifier, one shared timestamp and unset
    /// transient fields, persists its columns, and returns the
    /// constructed value.
    pub fn create_at(&mut self, input: CreateStaffInput, now: i64) -> (r: Result<
        Staff,
        DomainError,
    >)
        requires
            old(self).inv(),
        ensures
            final(self).inv(),
            r matches Ok(t) ==> ({
                &&& t@.tenant_id == input.tenant_id@
                &&& t@.role == input.role
                &&& t@.auth_uid == input.auth_uid@
                &&& t@.display_name == input.display_name@
                &&& t@.image_path == input.image_path@
                &&& t@.email == input.email@
                &&& t@.created_at == now as int
                &&& t@.updated_at == now as int
                &&& t@.id.len() == 36
                &&& t@.image_url is None
                &&& t@.tenant is None
                &&& !has_staff(old(self).staffs(), t@.id)
                &&& final(self).staffs() == insert_staff(old(self).staffs(), t@)
            }),
            r matches Err(e) ==> is_internal(e) && final(self).staffs() == old(self).staffs(),
    {
        let staff = Staff::new(
            input.tenant_id,
            input.role,
            input.auth_uid,
            input.display_name,
            input.image_path,
            input.email,
            now,
        );
        match self.repository.create(&staff) {
            Ok(_) => Ok(staff),
            Err(e) => Err(e),
        }
    }

    /// Creates a staff member stamped with the current clock reading:
    /// the fresh entity always satisfies `created_at == updated_at`.
    pub fn create(&mut self, input: CreateStaffInput) -> (r: Result<Staff, DomainError>)
        requires
            old(self).inv(),
        ensures
            final(self).inv(),
            r matches Ok(t) ==> ({
                &&& t@.tenant_id == input.tenant_id@
                &&& t@.role == input.role
                &&& t@.auth_uid == input.auth_uid@
                &&& t@.display_name == input.display_name@
                &&& t@.image_path == input.image_path@
                &&& t@.email == input.email@
                &&& t@.created_at == t@.updated_at
                &&& t@.id.len() == 36
                &&& t@.image_url is None
                &&& t@.tenant is None
                &&& !has_staff(old(self).staffs(), t@.id)
                &&& final(self).staffs() == insert_staff(old(self).staffs(), t@)
            }),
            r matches Err(e) ==> is_internal(e) && final(self).staffs() == old(self).staffs(),
    {
        let now = now_millis();
        self.create_at(input, now)
    }

    /// The deterministic core of `update`: the existence check the
    /// repository deliberately omits, then the partial-update merge
    /// (each present input field overwrites, each absent one is left
    /// untouched), persisted as a full-row overwrite. Fails with the
    /// staff-specific not-found error exactly when the identifier is
    /// absent (and the lookup itself did not fail).
    pub fn update_at(&mut self, input: UpdateStaffInput, now: i64) -> (r: Result<
        Staff,
        DomainError,
    >)
        requires
            old(self).inv(),
        ensures
            final(self).inv(),
            r matches Ok(t) ==> ({
                &&& has_staff(old(self).staffs(), input.id@)
                &&& t@ == merge_staff(
                    staff_with_id(old(self).staffs(), input.id@),
                    input.role,
                    input.display_name.deep_view(),
                    input.image_path.deep_view(),
                    input.email.deep_view(),
                    now as int,
                )
                &&& final(self).staffs() == store_staff(old(self).staffs(), t@)
            }),
            !has_staff(old(self).staffs(), input.id@) ==> r is Err,
            r matches Err(e) ==> ({
                &&& (is_staff_not_found(e) && !has_staff(old(self).staffs(), input.id@))
                    || is_internal(e)
                &&& final(self).staffs() == old(self).staffs()
            }),
    {
        let query = GetStaffQuery {
            id: Some(input.id.clone()),
            auth_uid: None,
            with_tenant: false,
        };
        let mut staff = match self.repository.get(query) {
            Ok(Some(t)) => t,
            Ok(None) => {
                return Err(staff_not_found());
            },
            Err(e) => {
                return Err(e);
            },
        };
        let ghost t0 = staff@;
        if let Some(role) = input.role {
            staff.role = role;
        }
        if let Some(display_name) = input.display_name {
            staff.display_name = display_name;
        }
        if let Some(image_path) = input.image_path {
            staff.image_path = image_path;
        }
        if let Some(email) = input.email {
            staff.email = email;
        }
        staff.updated_at = now;
        proof {
            assert(staff@ =~= merge_staff(
                t0,
                input.role,
                input.display_name.deep_view(),
                input.image_path.deep_view(),
                input.email.deep_view(),
                now as int,
            ));
        }
        match self.repository.update(&staff) {
            Ok(_) => Ok(staff),
            Err(e) => Err(e),
        }
    }

    /// Updates with the current clock reading. The merge semantics are
    /// those of `update_at`; only the new `updated_at` value is left to
    /// the clock.
    pub fn update(&mut self, input: UpdateStaffInput) -> (r: Result<Staff, DomainError>)
        requires
            old(self).inv(),
        ensures
            final(self).inv(),
            r matches Ok(t) ==> ({
                let t0 = staff_with_id(old(self).staffs(), input.id@);
                &&& has_staff(old(self).staffs(), input.id@)
                &&& t@.id == input.id@
                &&& t@.tenant_id == t0.tenant_id
                &&& t@.auth_uid == t0.auth_uid
                &&& t@.created_at == t0.created_at
                &&& t@.role == (match input.role {
                    Some(r) => r,
                    None => t0.role,
                })
                &&& t@.display_name == (match input.display_name.deep_view() {
                    Some(d) => d,
                    None => t0.display_name,
                })
                &&& t@.image_path == (match input.image_path.deep_view() {
                    Some(p) => p,
                    None => t0.image_path,
                })
                &&& t@.email == (match input.email.deep_view() {
                    Some(x) => x,
                    None => t0.email,
                })
                &&& t@.image_url == t0.image_url
                &&& t@.tenant == t0.tenant
                &&& final(self).staffs() == store_staff(old(self).staffs(), t@)
            }),
            !has_staff(old(self).staffs(), input.id@) ==> r is Err,
            r matches Err(e) ==> ({
                &&& (is_staff_not_found(e) && !has_staff(old(self).staffs(), input.id@))
                    || is_internal(e)
                &&& final(self).staffs() == old(self).staffs()
            }),
    {
        let now = now_millis();
        self.update_at(input, now)
    }

    /// Pass-through delete, no existence pre-check: deleting a missing
    /// identifier succeeds.
    pub fn delete(&mut self, input: DeleteStaffInput) -> (r: Result<(), DomainError>)
        requires
            old(self).inv(),
        ensures
            final(self).inv(),
            r matches Ok(_) ==> final(self).staffs() == remove_staff(
                old(self).staffs(),
                input.id@,
            ),
            r matches Err(e) ==> is_internal(e) && final(self).staffs() == old(self).staffs(),
    {
        self.repository.delete(&input.id)
    }
}

/// Updating never moves `updated_at` backwards: merging with a clock
/// reading no older than the stored row yields a row at least as new,
/// and after the merged row is stored, no row in the store is older
/// than it was before.
pub proof fn lemma_staff_update_monotonic(
    s: Seq<StaffView>,
    id: Seq<char>,
    role: Option<crate::staff_role::StaffRole>,
    display_name: Option<Seq<char>>,
    image_path: Option<Seq<char>>,
    email: Option<Seq<char>>,
    now: int,
)
    requires
        staff_ids_unique(s),
        has_staff(s, id),
        now >= staff_with_id(s, id).updated_at,
    ensures
        merge_staff(staff_with_id(s, id), role, display_name, image_path, email, now).updated_at
            >= staff_with_id(s, id).updated_at,
        forall|k: int|
            0 <= k < s.len() ==> #[trigger] store_staff(
                s,
                merge_staff(staff_with_id(s, id), role, display_name, image_path, email, now),
            )[k].updated_at >= s[k].updated_at,
{
    let merged = merge_staff(staff_with_id(s, id), role, display_name, image_path, email, now);
    let s2 = store_staff(s, merged);
    let j = staff_index(s, id);
    assert forall|k: int| 0 <= k < s.len() implies #[trigger] s2[k].updated_at
        >= s[k].updated_at by {
        if s[k].id == merged.id {
            if k < j {
                assert(s[k].id != s[j].id);
            }
            if k > j {
                assert(s[j].id != s[k].id);
            }
            assert(k == j);
        }
    }
}

/// An update with no optional field set still advances `updated_at`
/// and changes nothing else.
pub proof fn lemma_staff_empty_update(t: StaffView, now: int)
    ensures
        merge_staff(t, None, None, None, None, now) == (StaffView { updated_at: now, ..t }),
{
    assert(merge_staff(t, None, None, None, None, now) =~= (StaffView { updated_at: now, ..t }));
}

} // verus!
