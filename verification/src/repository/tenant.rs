//! The tenant repository contract: a thin data-access seam with no
//! business logic. Its abstract state is the stored tenants in
//! creation-time-descending order.

use vstd::prelude::*;

use crate::error::{is_internal, DomainError};
use crate::repository::page;
use crate::tenant::{Tenant, TenantId, TenantView};

verus! {

/// Lookup criteria for a single tenant: by primary identifier only.
#[derive(Debug)]
pub struct GetTenantQuery {
    pub id: Option<TenantId>,
}

impl Default for GetTenantQuery {
    fn default() -> (r: Self)
        ensures
            r.id is None,
    {
        GetTenantQuery { id: None }
    }
}

/// Listing criteria: optional limit/offset pagination, no filter.
#[derive(Debug, Clone, Copy)]
pub struct ListTenantQuery {
    pub limit: Option<u64>,
    pub offset: Option<u64>,
}

impl Default for ListTenantQuery {
    fn default() -> (r: Self)
        ensures
            r.limit is None,
            r.offset is None,
    {
        ListTenantQuery { limit: None, offset: None }
    }
}

/// The stored tenants, as mathematical values.
pub open spec fn views_of_tenants(s: Seq<Tenant>) -> Seq<TenantView> {
    s.map_values(|t: Tenant| t@)
}

/// Identifiers are unique across the store (the primary key).
pub open spec fn tenant_ids_unique(s: Seq<TenantView>) -> bool {
    forall|i: int, j: int| 0 <= i < j < s.len() ==> s[i].id != s[j].id
}

/// The store order is creation time, newest first.
pub open spec fn tenants_sorted(s: Seq<TenantView>) -> bool {
    forall|i: int, j: int| 0 <= i <= j < s.len() ==> s[i].created_at >= s[j].created_at
}

pub open spec fn has_tenant(s: Seq<TenantView>, id: Seq<char>) -> bool {
    exists|i: int| 0 <= i < s.len() && s[i].id == id
}

pub open spec fn tenant_index(s: Seq<TenantView>, id: Seq<char>) -> int {
    choose|i: int| 0 <= i < s.len() && s[i].id == id
}

/// The stored tenant with the given identifier (meaningful when
/// `has_tenant` holds; unique when identifiers are).
pub open spec fn tenant_with_id(s: Seq<TenantView>, id: Seq<char>) -> TenantView {
    s[tenant_index(s, id)]
}

/// The predicate a row must meet to survive a delete by `id`.
pub open spec fn keeps_tenant(id: Seq<char>) -> spec_fn(TenantView) -> bool {
    |t: TenantView| t.id != id
}

/// What a delete by identifier leaves behind.
pub open spec fn remove_tenant(s: Seq<TenantView>, id: Seq<char>) -> Seq<TenantView> {
    s.filter(keeps_tenant(id))
}

/// What a full-row update keyed by `t.id` leaves behind: the mutable
/// columns (name, `updated_at`) of every matching row are overwritten,
/// everything else is untouched. With no matching row this is the
/// identity (zero rows affected).
pub open spec fn store_tenant(s: Seq<TenantView>, t: TenantView) -> Seq<TenantView> {
    s.map_values(
        |e: TenantView|
            if e.id == t.id {
                TenantView { name: t.name, updated_at: t.updated_at, ..e }
            } else {
                e
            },
    )
}

/// Where a fresh row lands in the creation-time-descending order: in
/// front of every strictly newer row, before any tie.
pub open spec fn tenant_insert_pos(s: Seq<TenantView>, ts: int) -> int
    decreases s.len(),
{
    if s.len() == 0 {
        0
    } else if s[0].created_at <= ts {
        0
    } else {
        1 + tenant_insert_pos(s.skip(1), ts)
    }
}

/// What a create leaves behind: the new row inserted at its position
/// in the order.
pub open spec fn insert_tenant(s: Seq<TenantView>, t: TenantView) -> Seq<TenantView> {
    s.insert(tenant_insert_pos(s, t.created_at), t)
}

/// The insertion position is within bounds, everything before it is
/// strictly newer, and the row at it (if any) is no newer.
pub(crate) proof fn lemma_tenant_insert_pos(s: Seq<TenantView>, ts: int)
    ensures
        0 <= tenant_insert_pos(s, ts) <= s.len(),
        forall|k: int| 0 <= k < tenant_insert_pos(s, ts) ==> s[k].created_at > ts,
        tenant_insert_pos(s, ts) < s.len() ==> s[tenant_insert_pos(s, ts)].created_at <= ts,
    decreases s.len(),
{
    if s.len() == 0 {
    } else if s[0].created_at <= ts {
    } else {
        lemma_tenant_insert_pos(s.skip(1), ts);
        assert forall|k: int| 0 <= k < tenant_insert_pos(s, ts) implies s[k].created_at > ts by {
            if k > 0 {
                assert(s.skip(1)[k - 1] == s[k]);
            }
        }
        if tenant_insert_pos(s, ts) < s.len() {
            assert(s.skip(1)[tenant_insert_pos(s, ts) - 1] == s[tenant_insert_pos(s, ts)]);
        }
    }
}

/// Deleting is idempotent: a second delete by the same identifier
/// leaves the store unchanged, so deleting twice in a row ends in the
/// same state as deleting once.
pub proof fn lemma_tenant_delete_idempotent(s: Seq<TenantView>, id: Seq<char>)
    ensures
        remove_tenant(remove_tenant(s, id), id) == remove_tenant(s, id),
{
    let f = remove_tenant(s, id);
    assert forall|i: int| 0 <= i < f.len() implies keeps_tenant(id)(f[i]) by {
        s.lemma_filter_pred(keeps_tenant(id), i);
    }
    crate::repository::lemma_filter_all_kept(f, keeps_tenant(id));
}

/// The repository capability contract for tenants. `get` reports
/// absence as `Ok(None)`, never as an error; `update` silently
/// succeeds with zero rows affected on a missing identifier; `delete`
/// is idempotent. Every failure is classified `Internal`.
pub trait TenantRepository: Sized {
    /// The stored tenants, newest first.
    spec fn tenants(&self) -> Seq<TenantView>;

    /// The store's well-formedness: unique identifiers, creation-time
    /// order.
    spec fn inv(&self) -> bool;

    fn get(&self, query: GetTenantQuery) -> (r: Result<Option<Tenant>, DomainError>)
        requires
            self.inv(),
        ensures
            r matches Ok(Some(t)) ==> query.id matches Some(qid) && has_tenant(
                self.tenants(),
                qid@,
            ) && t@ == tenant_with_id(self.tenants(), qid@),
            r matches Ok(None) ==> (query.id matches Some(qid) ==> !has_tenant(
                self.tenants(),
                qid@,
            )),
            r matches Err(e) ==> is_internal(e);

    fn list(&self, query: ListTenantQuery) -> (r: Result<Vec<Tenant>, DomainError>)
        requires
            self.inv(),
        ensures
            r matches Ok(v) ==> views_of_tenants(v@) == page(
                self.tenants(),
                query.limit,
                query.offset,
            ),
            r matches Err(e) ==> is_internal(e);

    fn count(&self, query: ListTenantQuery) -> (r: Result<u64, DomainError>)
        requires
            self.inv(),
        ensures
            r matches Ok(n) ==> n as int == self.tenants().len(),
            r matches Err(e) ==> is_internal(e);

    fn create(&mut self, tenant: &Tenant) -> (r: Result<(), DomainError>)
        requires
            old(self).inv(),
        ensures
            final(self).inv(),
            r matches Ok(_) ==> !has_tenant(old(self).tenants(), tenant@.id)
                && final(self).tenants() == insert_tenant(old(self).tenants(), tenant@),
            r matches Err(e) ==> is_internal(e) && final(self).tenants() == old(self).tenants();

    fn update(&mut self, tenant: &Tenant) -> (r: Result<(), DomainError>)
        requires
            old(self).inv(),
        ensures
            final(self).inv(),
            r matches Ok(_) ==> final(self).tenants() == store_tenant(
                old(self).tenants(),
                tenant@,
            ),
            r matches Err(e) ==> is_internal(e) && final(self).tenants() == old(self).tenants();

    fn delete(&mut self, id: &TenantId) -> (r: Result<(), DomainError>)
        requires
            old(self).inv(),
        ensures
            final(self).inv(),
            r matches Ok(_) ==> final(self).tenants() == remove_tenant(old(self).tenants(), id@),
            r matches Err(e) ==> is_internal(e) && final(self).tenants() == old(self).tenants();
}

} // verus!
