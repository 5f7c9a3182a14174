//! The staff repository contract. Its abstract state is the persisted
//! staff rows (transient fields excluded) in creation-time-descending
//! order.

use vstd::prelude::*;

use crate::error::{is_internal, DomainError};
use crate::repository::page;
use crate::staff::{persisted_staff, Staff, StaffId, StaffView};
use crate::tenant::TenantId;

verus! {

/// Lookup criteria for a single staff member: by primary identifier,
/// by external auth identifier, or both combined (both must match).
/// `with_tenant` asks for denormalized tenant data; the current
/// persistence adapters do not populate it.
#[derive(Debug)]
pub struct GetStaffQuery {
    pub id: Option<StaffId>,
    pub auth_uid: Option<String>,
    pub with_tenant: bool,
}

impl Default for GetStaffQuery {
    fn default() -> (r: Self)
        ensures
            r.id is None,
            r.auth_uid is None,
            !r.with_tenant,
    {
        GetStaffQuery { id: None, auth_uid: None, with_tenant: false }
    }
}

/// Listing criteria: optional equality filter by owning tenant, and
/// optional limit/offset pagination.
#[derive(Debug)]
pub struct ListStaffQuery {
    pub tenant_id: Option<TenantId>,
    pub limit: Option<u64>,
    pub offset: Option<u64>,
}

impl Clone for ListStaffQuery {
    fn clone(&self) -> (r: Self)
        ensures
            r.tenant_id.deep_view() == self.tenant_id.deep_view(),
            r.limit == self.limit,
            r.offset == self.offset,
    {
        ListStaffQuery {
            tenant_id: match &self.tenant_id {
                Some(t) => Some(t.clone()),
                None => None,
            },
            limit: self.limit,
            offset: self.offset,
        }
    }
}

impl Default for ListStaffQuery {
    fn default() -> (r: Self)
        ensures
            r.tenant_id is None,
            r.limit is None,
            r.offset is None,
    {
        ListStaffQuery { tenant_id: None, limit: None, offset: None }
    }
}

/// The stored staff rows, as mathematical values.
pub open spec fn views_of_staffs(s: Seq<Staff>) -> Seq<StaffView> {
    s.map_values(|t: Staff| t@)
}

/// Identifiers are unique across the store (the primary key).
pub open spec fn staff_ids_unique(s: Seq<StaffView>) -> bool {
    forall|i: int, j: int| 0 <= i < j < s.len() ==> s[i].id != s[j].id
}

/// The store order is creation time, newest first.
pub open spec fn staffs_sorted(s: Seq<StaffView>) -> bool {
    forall|i: int, j: int| 0 <= i <= j < s.len() ==> s[i].created_at >= s[j].created_at
}

pub open spec fn has_staff(s: Seq<StaffView>, id: Seq<char>) -> bool {
    exists|i: int| 0 <= i < s.len() && s[i].id == id
}

pub open spec fn staff_index(s: Seq<StaffView>, id: Seq<char>) -> int {
    choose|i: int| 0 <= i < s.len() && s[i].id == id
}

/// The stored staff member with the given identifier (meaningful when
/// `has_staff` holds; unique when identifiers are).
pub open spec fn staff_with_id(s: Seq<StaffView>, id: Seq<char>) -> StaffView {
    s[staff_index(s, id)]
}

/// Whether the query names at least one lookup criterion; with none, a
/// `get` returns nothing rather than an arbitrary row.
pub open spec fn staff_query_selective(q: GetStaffQuery) -> bool {
    q.id is Some || q.auth_uid is Some
}

/// Whether a row meets every criterion the query names (AND
/// semantics).
pub open spec fn staff_matches_get(v: StaffView, q: GetStaffQuery) -> bool {
    &&& (q.id matches Some(i) ==> v.id == i@)
    &&& (q.auth_uid matches Some(a) ==> v.auth_uid == a@)
}

/// The predicate a row must meet to survive a delete by `id`.
pub open spec fn keeps_staff(id: Seq<char>) -> spec_fn(StaffView) -> bool {
    |t: StaffView| t.id != id
}

/// What a delete by identifier leaves behind.
pub open spec fn remove_staff(s: Seq<StaffView>, id: Seq<char>) -> Seq<StaffView> {
    s.filter(keeps_staff(id))
}

/// The predicate a row must meet to be listed under an optional
/// owning-tenant filter.
pub open spec fn staff_of_tenant(tid: Seq<char>) -> spec_fn(StaffView) -> bool {
    |v: StaffView| v.tenant_id == tid
}

/// The rows an optional owning-tenant filter selects, in store order.
pub open spec fn filter_staffs(s: Seq<StaffView>, tenant_id: Option<Seq<char>>) -> Seq<StaffView> {
    match tenant_id {
        Some(tid) => s.filter(staff_of_tenant(tid)),
        None => s,
    }
}

/// What a full-row update keyed by `t.id` leaves behind: the mutable
/// columns (role, display name, image path, email, `updated_at`) of
/// every matching row are overwritten; identifier, owning tenant, auth
/// identifier and `created_at` are untouched. With no matching row
/// this is the identity (zero rows affected).
pub open spec fn store_staff(s: Seq<StaffView>, t: StaffView) -> Seq<StaffView> {
    s.map_values(
        |e: StaffView|
            if e.id == t.id {
                StaffView {
                    role: t.role,
                    display_name: t.display_name,
                    image_path: t.image_path,
                    email: t.email,
                    updated_at: t.updated_at,
                    ..e
                }
            } else {
                e
            },
    )
}

/// Where a fresh row lands in the creation-time-descending order.
pub open spec fn staff_insert_pos(s: Seq<StaffView>, ts: int) -> int
    decreases s.len(),
{
    if s.len() == 0 {
        0
    } else if s[0].created_at <= ts {
        0
    } else {
        1 + staff_insert_pos(s.skip(1), ts)
    }
}

/// What a create leaves behind: the persisted columns of the new row,
/// inserted at its position in the order.
pub open spec fn insert_staff(s: Seq<StaffView>, t: StaffView) -> Seq<StaffView> {
    s.insert(staff_insert_pos(s, t.created_at), persisted_staff(t))
}

/// The insertion position is within bounds, everything before it is
/// strictly newer, and the row at it (if any) is no newer.
pub(crate) proof fn lemma_staff_insert_pos(s: Seq<StaffView>, ts: int)
    ensures
        0 <= staff_insert_pos(s, ts) <= s.len(),
        forall|k: int| 0 <= k < staff_insert_pos(s, ts) ==> s[k].created_at > ts,
        staff_insert_pos(s, ts) < s.len() ==> s[staff_insert_pos(s, ts)].created_at <= ts,
    decreases s.len(),
{
    if s.len() == 0 {
    } else if s[0].created_at <= ts {
    } else {
        lemma_staff_insert_pos(s.skip(1), ts);
        assert forall|k: int| 0 <= k < staff_insert_pos(s, ts) implies s[k].created_at > ts by {
            if k > 0 {
                assert(s.skip(1)[k - 1] == s[k]);
            }
        }
        if staff_insert_pos(s, ts) < s.len() {
            assert(s.skip(1)[staff_insert_pos(s, ts) - 1] == s[staff_insert_pos(s, ts)]);
        }
    }
}

/// Deleting is idempotent: a second delete by the same identifier
/// leaves the store unchanged, so deleting twice in a row ends in the
/// same state as deleting once.
pub proof fn lemma_staff_delete_idempotent(s: Seq<StaffView>, id: Seq<char>)
    ensures
        remove_staff(remove_staff(s, id), id) == remove_staff(s, id),
{
    let f = remove_staff(s, id);
    assert forall|i: int| 0 <= i < f.len() implies keeps_staff(id)(f[i]) by {
        s.lemma_filter_pred(keeps_staff(id), i);
    }
    crate::repository::lemma_filter_all_kept(f, keeps_staff(id));
}

/// The repository capability contract for staff. `get` reports absence
/// as `Ok(None)`; `update` silently succeeds with zero rows affected
/// on a missing identifier; `delete` is idempotent. Every failure is
/// classified `Internal`.
pub trait StaffRepository: Sized {
    /// The persisted staff rows, newest first.
    spec fn staffs(&self) -> Seq<StaffView>;

    /// The store's well-formedness: unique identifiers, creation-time
    /// order.
    spec fn inv(&self) -> bool;

    fn get(&self, query: GetStaffQuery) -> (r: Result<Option<Staff>, DomainError>)
        requires
            self.inv(),
        ensures
            r matches Ok(Some(t)) ==> staff_query_selective(query) && self.staffs().contains(t@)
                && staff_matches_get(t@, query),
            r matches Ok(Some(t)) ==> (query.id matches Some(qid) ==> has_staff(
                self.staffs(),
                qid@,
            ) && t@ == staff_with_id(self.staffs(), qid@)),
            r matches Ok(None) ==> (staff_query_selective(query) ==> (forall|i: int|
                0 <= i < self.staffs().len() ==> !staff_matches_get(self.staffs()[i], query))),
            r matches Err(e) ==> is_internal(e);

    fn list(&self, query: ListStaffQuery) -> (r: Result<Vec<Staff>, DomainError>)
        requires
            self.inv(),
        ensures
            r matches Ok(v) ==> views_of_staffs(v@) == page(
                filter_staffs(self.staffs(), query.tenant_id.deep_view()),
                query.limit,
                query.offset,
            ),
            r matches Err(e) ==> is_internal(e);

    fn count(&self, query: ListStaffQuery) -> (r: Result<u64, DomainError>)
        requires
            self.inv(),
        ensures
            r matches Ok(n) ==> n as int == filter_staffs(
                self.staffs(),
                query.tenant_id.deep_view(),
            ).len(),
            r matches Err(e) ==> is_internal(e);

    fn create(&mut self, staff: &Staff) -> (r: Result<(), DomainError>)
        requires
            old(self).inv(),
        ensures
            final(self).inv(),
            r matches Ok(_) ==> !has_staff(old(self).staffs(), staff@.id) && final(self).staffs()
                == insert_staff(old(self).staffs(), staff@),
            r matches Err(e) ==> is_internal(e) && final(self).staffs() == old(self).staffs();

    fn update(&mut self, staff: &Staff) -> (r: Result<(), DomainError>)
        requires
            old(self).inv(),
        ensures
            final(self).inv(),
            r matches Ok(_) ==> final(self).staffs() == store_staff(old(self).staffs(), staff@),
            r matches Err(e) ==> is_internal(e) && final(self).staffs() == old(self).staffs();

    fn delete(&mut self, id: &StaffId) -> (r: Result<(), DomainError>)
        requires
            old(self).inv(),
        ensures
            final(self).inv(),
            r matches Ok(_) ==> final(self).staffs() == remove_staff(old(self).staffs(), id@),
            r matches Err(e) ==> is_internal(e) && final(self).staffs() == old(self).staffs();
}

} // verus!
