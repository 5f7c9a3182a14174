//! The tenant use-cases: orchestration over any conforming repository.
//! This is the only layer that enforces business rules: the existence
//! check before update, the partial-update merge, and timestamp
//! assignment.

use vstd::prelude::*;

use crate::bridge::now_millis;
use crate::error::{is_internal, is_tenant_not_found, tenant_not_found, DomainError};
use crate::input::tenant::{
    CreateTenantInput, DeleteTenantInput, GetTenantInput, ListTenantInput, UpdateTenantInput,
};
use crate::output::ListTenantOutput;
use crate::repository::page;
use crate::repository::tenant::{
    has_tenant, insert_tenant, remove_tenant, store_tenant, tenant_ids_unique, tenant_index,
    tenant_with_id, views_of_tenants, GetTenantQuery, ListTenantQuery, TenantRepository,
};
use crate::repository::lemma_page_within_total;
use crate::tenant::{merge_tenant, Tenant, TenantView};

verus! {

pub struct TenantInteractor<R: TenantRepository> {
    repository: R,
}

impl<R: TenantRepository> TenantInteractor<R> {
    /// The repository's abstract contents, as the interactor sees
    /// them.
    pub closed spec fn tenants(&self) -> Seq<TenantView> {
        self.repository.tenants()
    }

    pub closed spec fn inv(&self) -> bool {
        self.repository.inv()
    }

    pub fn new(repository: R) -> (r: Self)
        ensures
            r.tenants() == repository.tenants(),
            r.inv() == repository.inv(),
    {
        TenantInteractor { repository }
    }

    /// Pass-through lookup: absence is `Ok(None)`, not an error; the
    /// transport layer decides what absence becomes.
    pub fn get(&self, input: GetTenantInput) -> (r: Result<Option<Tenant>, DomainError>)
        requires
            self.inv(),
        ensures
            r matches Ok(Some(t)) ==> has_tenant(self.tenants(), input.id@) && t@
                == tenant_with_id(self.tenants(), input.id@),
            r matches Ok(None) ==> !has_tenant(self.tenants(), input.id@),
            r matches Err(e) ==> is_internal(e),
    {
        let query = GetTenantQuery { id: Some(input.id) };
        self.repository.get(query)
    }

    /// A page of tenants plus the total count under the same (empty)
    /// filter: the count reflects the filter, not the page, so it is
    /// never below the number of rows returned, and equals it when no
    /// pagination is requested.
    pub fn list(&self, input: ListTenantInput) -> (r: Result<ListTenantOutput, DomainError>)
        requires
            self.inv(),
        ensures
            r matches Ok(out) ==> ({
                &&& views_of_tenants(out.tenants@) == page(
                    self.tenants(),
                    input.limit,
                    input.offset,
                )
                &&& out.total_count as int == self.tenants().len()
                &&& out.tenants@.len() <= out.total_count
                &&& (input.limit is None && input.offset is None ==> out.tenants@.len()
                    == out.total_count)
            }),
            r matches Err(e) ==> is_internal(e),
    {
        let query = ListTenantQuery { limit: input.limit, offset: input.offset };
        let tenants = match self.repository.list(query) {
            Ok(v) => v,
            Err(e) => {
                return Err(e);
            },
        };
        let total_count = match self.repository.count(query) {
            Ok(n) => n,
            Err(e) => {
                return Err(e);
            },
        };
        proof {
            lemma_page_within_total(self.tenants(), input.limit, input.offset);
        }
        Ok(ListTenantOutput { tenants, total_count })
    }

    /// The deterministic core of `create`: builds the entity in memory
    /// with a fresh identifier and one shared timestamp, persists it,
    /// and returns the constructed value (not a re-fetched row).
    pub fn create_at(&mut self, input: CreateTenantInput, now: i64) -> (r: Result<
        Tenant,
        DomainError,
    >)
        requires
            old(self).inv(),
        ensures
            final(self).inv(),
            r matches Ok(t) ==> ({
                &&& t@.name == input.name@
                &&& t@.tags.len() == 0
                &&& t@.created_at == now as int
                &&& t@.updated_at == now as int
                &&& t@.id.len() == 36
                &&& !has_tenant(old(self).tenants(), t@.id)
                &&& final(self).tenants() == insert_tenant(old(self).tenants(), t@)
            }),
            r matches Err(e) ==> is_internal(e) && final(self).tenants() == old(self).tenants(),
    {
        let tenant = Tenant::new(input.name, now);
        match self.repository.create(&tenant) {
            Ok(_) => Ok(tenant),
            Err(e) => Err(e),
        }
    }

    /// Creates a tenant stamped with the current clock reading: the
    /// fresh entity always satisfies `created_at == updated_at`.
    pub fn create(&mut self, input: CreateTenantInput) -> (r: Result<Tenant, DomainError>)
        requires
            old(self).inv(),
        ensures
            final(self).inv(),
            r matches Ok(t) ==> ({
                &&& t@.name == input.name@
                &&& t@.tags.len() == 0
                &&& t@.created_at == t@.updated_at
                &&& t@.id.len() == 36
                &&& !has_tenant(old(self).tenants(), t@.id)
                &&& final(self).tenants() == insert_tenant(old(self).tenants(), t@)
            }),
            r matches Err(e) ==> is_internal(e) && final(self).tenants() == old(self).tenants(),
    {
        let now = now_millis();
        self.create_at(input, now)
    }

    /// The deterministic core of `update`: the existence check the
    /// repository deliberately omits, then the partial-update merge,
    /// persisted as a full-row overwrite. Fails with the
    /// tenant-specific not-found error exactly when the identifier is
    /// absent (and the lookup itself did not fail).
    pub fn update_at(&mut self, input: UpdateTenantInput, now: i64) -> (r: Result<
        Tenant,
        DomainError,
    >)
        requires
            old(self).inv(),
        ensures
            final(self).inv(),
            r matches Ok(t) ==> ({
                &&& has_tenant(old(self).tenants(), input.id@)
                &&& t@ == merge_tenant(
                    tenant_with_id(old(self).tenants(), input.id@),
                    input.name.deep_view(),
                    now as int,
                )
                &&& final(self).tenants() == store_tenant(old(self).tenants(), t@)
            }),
            !has_tenant(old(self).tenants(), input.id@) ==> r is Err,
            r matches Err(e) ==> ({
                &&& (is_tenant_not_found(e) && !has_tenant(old(self).tenants(), input.id@))
                    || is_internal(e)
                &&& final(self).tenants() == old(self).tenants()
            }),
    {
        let query = GetTenantQuery { id: Some(input.id.clone()) };
        let mut tenant = match self.repository.get(query) {
            Ok(Some(t)) => t,
            Ok(None) => {
                return Err(tenant_not_found());
            },
            Err(e) => {
                return Err(e);
            },
        };
        tenant.update(input.name, now);
        match self.repository.update(&tenant) {
            Ok(_) => Ok(tenant),
            Err(e) => Err(e),
        }
    }

    /// Updates with the current clock reading. The merge semantics are
    /// those of `update_at`; only the new `updated_at` value is left to
    /// the clock.
    pub fn update(&mut self, input: UpdateTenantInput) -> (r: Result<Tenant, DomainError>)
        requires
            old(self).inv(),
        ensures
            final(self).inv(),
            r matches Ok(t) ==> ({
                let t0 = tenant_with_id(old(self).tenants(), input.id@);
                &&& has_tenant(old(self).tenants(), input.id@)
                &&& t@.id == input.id@
                &&& t@.name == (match input.name.deep_view() {
                    Some(n) => n,
                    None => t0.name,
                })
                &&& t@.created_at == t0.created_at
                &&& t@.tags == t0.tags
                &&& final(self).tenants() == store_tenant(old(self).tenants(), t@)
            }),
            !has_tenant(old(self).tenants(), input.id@) ==> r is Err,
            r matches Err(e) ==> ({
                &&& (is_tenant_not_found(e) && !has_tenant(old(self).tenants(), input.id@))
                    || is_internal(e)
                &&& final(self).tenants() == old(self).tenants()
            }),
    {
        let now = now_millis();
        self.update_at(input, now)
    }

    /// Pass-through delete, no existence pre-check: deleting a missing
    /// identifier succeeds.
    pub fn delete(&mut self, input: DeleteTenantInput) -> (r: Result<(), DomainError>)
        requires
            old(self).inv(),
        ensures
            final(self).inv(),
            r matches Ok(_) ==> final(self).tenants() == remove_tenant(
                old(self).tenants(),
                input.id@,
            ),
            r matches Err(e) ==> is_internal(e) && final(self).tenants() == old(self).tenants(),
    {
        self.repository.delete(&input.id)
    }
}

/// Updating never moves `updated_at` backwards: merging with a clock
/// reading no older than the stored row yields a row at least as new,
/// and after the merged row is stored, no row in the store is older
/// than it was before.
pub proof fn lemma_tenant_update_monotonic(
    s: Seq<TenantView>,
    id: Seq<char>,
    name: Option<Seq<char>>,
    now: int,
)
    requires
        tenant_ids_unique(s),
        has_tenant(s, id),
        now >= tenant_with_id(s, id).updated_at,
    ensures
        merge_tenant(tenant_with_id(s, id), name, now).updated_at >= tenant_with_id(
            s,
            id,
        ).updated_at,
        forall|k: int|
            0 <= k < s.len() ==> #[trigger] store_tenant(
                s,
                merge_tenant(tenant_with_id(s, id), name, now),
            )[k].updated_at >= s[k].updated_at,
{
    let merged = merge_tenant(tenant_with_id(s, id), name, now);
    let s2 = store_tenant(s, merged);
    let j = tenant_index(s, id);
    assert forall|k: int| 0 <= k < s.len() implies #[trigger] s2[k].updated_at
        >= s[k].updated_at by {
        if s[k].id == merged.id {
            if k < j {
                assert(s[k].id != s[j].id);
            }
            if k > j {
                assert(s[j].id != s[k].id);
            }
            assert(k == j);
        }
    }
}

/// An update with no optional field set still advances `updated_at`
/// and changes nothing else.
pub proof fn lemma_tenant_empty_update(t: TenantView, now: int)
    ensures
        merge_tenant(t, None, now) == (TenantView { updated_at: now, ..t }),
{
    assert(merge_tenant(t, None, now) =~= (TenantView { updated_at: now, ..t }));
}

} // verus!
