//! An in-memory tenant store: a vector kept in creation-time
//! descending order with unique identifiers, meeting the repository
//! contract.

use vstd::prelude::*;

use crate::error::DomainError;
use crate::repository::tenant::{
    has_tenant, insert_tenant, keeps_tenant, lemma_tenant_insert_pos, remove_tenant, store_tenant,
    tenant_ids_unique, tenant_index, tenant_insert_pos, tenant_with_id, tenants_sorted,
    views_of_tenants, GetTenantQuery, ListTenantQuery, TenantRepository,
};
use crate::repository::{lemma_filter_push, page, page_end, page_start};
use crate::text::str_eq;
use crate::tenant::{Tenant, TenantId, TenantView};

verus! {

pub struct MemoryTenantRepository {
    items: Vec<Tenant>,
}

/// Filtering a store with unique identifiers kept in creation-time
/// order leaves identifiers unique and the order intact.
proof fn lemma_tenant_filter_keeps_order(s: Seq<TenantView>, p: spec_fn(TenantView) -> bool)
    requires
        tenant_ids_unique(s),
        tenants_sorted(s),
    ensures
        tenant_ids_unique(s.filter(p)),
        tenants_sorted(s.filter(p)),
        forall|a: int|
            0 <= a < s.filter(p).len() ==> exists|j: int|
                0 <= j < s.len() && s[j] == #[trigger] s.filter(p)[a],
    decreases s.len(),
{
    reveal(Seq::filter);
    if s.len() == 0 {
    } else {
        let d = s.drop_last();
        let l = s.last();
        assert(tenant_ids_unique(d)) by {
            assert(forall|i: int| 0 <= i < d.len() ==> d[i] == s[i]);
        }
        assert(tenants_sorted(d)) by {
            assert(forall|i: int| 0 <= i < d.len() ==> d[i] == s[i]);
        }
        lemma_tenant_filter_keeps_order(d, p);
        let fd = d.filter(p);
        assert forall|a: int| 0 <= a < fd.len() implies exists|j: int|
            0 <= j < s.len() && s[j] == #[trigger] fd[a] by {
            let j = choose|j: int| 0 <= j < d.len() && d[j] == fd[a];
            assert(s[j] == fd[a]);
        }
        if p(l) {
            assert(s.filter(p) == fd.push(l));
            assert forall|a: int| 0 <= a < fd.len() implies fd[a].id != l.id
                && fd[a].created_at >= l.created_at by {
                let j = choose|j: int| 0 <= j < d.len() && d[j] == fd[a];
                assert(s[j].id != s[s.len() - 1].id);
                assert(s[j].created_at >= s[s.len() - 1].created_at);
            }
        } else {
            assert(s.filter(p) == fd);
        }
    }
}

impl MemoryTenantRepository {
    /// An empty store.
    pub fn new() -> (r: Self)
        ensures
            r.inv(),
            r.tenants() == Seq::<TenantView>::empty(),
    {
        let r = MemoryTenantRepository { items: Vec::new() };
        proof {
            assert(r.tenants() =~= Seq::<TenantView>::empty());
        }
        r
    }
}

impl TenantRepository for MemoryTenantRepository {
    closed spec fn tenants(&self) -> Seq<TenantView> {
        views_of_tenants(self.items@)
    }

    closed spec fn inv(&self) -> bool {
        tenant_ids_unique(self.tenants()) && tenants_sorted(self.tenants())
    }

    fn get(&self, query: GetTenantQuery) -> (r: Result<Option<Tenant>, DomainError>) {
        let ghost s = self.tenants();
        let qid = match &query.id {
            Some(q) => q,
            None => {
                return Ok(None);
            },
        };
        let n = self.items.len();
        let mut i: usize = 0;
        while i < n
            invariant
                i <= n,
                n == self.items.len(),
                s == self.tenants(),
                s.len() == n,
                self.inv(),
                query.id is Some,
                qid == query.id->0,
                forall|k: int| 0 <= k < i ==> s[k].id != qid@,
            decreases n - i,
        {
            if str_eq(self.items[i].id.as_str(), qid.as_str()) {
                let t = self.items[i].clone();
                proof {
                    assert(t@ == s[i as int]);
                    assert(has_tenant(s, qid@));
                    let j = tenant_index(s, qid@);
                    if j < i as int {
                        assert(s[j].id != s[i as int].id);
                    }
                    if j > i as int {
                        assert(s[i as int].id != s[j].id);
                    }
                    assert(t@ == tenant_with_id(s, qid@));
                }
                return Ok(Some(t));
            }
            i += 1;
        }
        proof {
            assert(!has_tenant(s, qid@));
        }
        Ok(None)
    }

    fn list(&self, query: ListTenantQuery) -> (r: Result<Vec<Tenant>, DomainError>) {
        let ghost s = self.tenants();
        let n = self.items.len();
        let start: usize = match query.offset {
            Some(o) => if o >= n as u64 {
                n
            } else {
                o as usize
            },
            None => 0,
        };
        let end: usize = match query.limit {
            Some(l) => {
                let rem = n - start;
                if l >= rem as u64 {
                    n
                } else {
                    start + (l as usize)
                }
            },
            None => n,
        };
        proof {
            assert(start as int == page_start(s, query.offset));
            assert(end as int == page_end(s, query.limit, query.offset));
        }
        let mut v: Vec<Tenant> = Vec::new();
        let mut i: usize = start;
        proof {
            assert(views_of_tenants(v@) =~= s.subrange(start as int, start as int));
        }
        while i < end
            invariant
                start <= i <= end <= n,
                n == self.items.len(),
                s == self.tenants(),
                s.len() == n,
                views_of_tenants(v@) == s.subrange(start as int, i as int),
            decreases end - i,
        {
            let ghost prev = views_of_tenants(v@);
            let c = self.items[i].clone();
            let ghost cv = c@;
            v.push(c);
            proof {
                assert(cv == s[i as int]);
                assert(views_of_tenants(v@) =~= prev.push(cv));
                assert(prev.push(cv) =~= s.subrange(start as int, i as int + 1));
            }
            i += 1;
        }
        proof {
            assert(s.subrange(start as int, end as int) == page(s, query.limit, query.offset));
        }
        Ok(v)
    }

    fn count(&self, _query: ListTenantQuery) -> (r: Result<u64, DomainError>) {
        Ok(self.items.len() as u64)
    }

    fn create(&mut self, tenant: &Tenant) -> (r: Result<(), DomainError>) {
        let ghost s = old(self).tenants();
        let n = self.items.len();
        let mut i: usize = 0;
        while i < n
            invariant
                i <= n,
                n == self.items.len(),
                self.items@ == old(self).items@,
                s == self.tenants(),
                s.len() == n,
                self.inv(),
                forall|k: int| 0 <= k < i ==> s[k].id != tenant@.id,
            decreases n - i,
        {
            if str_eq(self.items[i].id.as_str(), tenant.id.as_str()) {
                return Err(DomainError::internal("DB_ERROR", "duplicate key value".to_owned()));
            }
            i += 1;
        }
        let mut j: usize = 0;
        while j < n && self.items[j].created_at > tenant.created_at
            invariant
                j <= n,
                n == self.items.len(),
                self.items@ == old(self).items@,
                s == self.tenants(),
                s.len() == n,
                self.inv(),
                forall|k: int| 0 <= k < j ==> s[k].created_at > tenant@.created_at,
            decreases n - j,
        {
            j += 1;
        }
        proof {
            lemma_tenant_insert_pos(s, tenant@.created_at);
            let pos = tenant_insert_pos(s, tenant@.created_at);
            if pos < j as int {
                assert(s[pos].created_at > tenant@.created_at);
                assert(false);
            }
            if pos > j as int {
                assert(s[j as int].created_at <= tenant@.created_at);
                assert(false);
            }
        }
        let c = tenant.clone();
        let ghost cv = c@;
        self.items.insert(j, c);
        proof {
            assert(cv == tenant@);
            let u = self.tenants();
            assert(u =~= s.insert(j as int, tenant@)) by {
                s.insert_ensures(j as int, tenant@);
                old(self).items@.insert_ensures(j as int, c);
            }
            assert(u == insert_tenant(s, tenant@));
            s.insert_ensures(j as int, tenant@);
            assert forall|a: int, b: int| 0 <= a < b < u.len() implies u[a].id != u[b].id by {
                if b < j as int {
                } else if a == j as int {
                    assert(u[b] == s[b - 1]);
                } else if b == j as int {
                    assert(u[a] == s[a]);
                } else if a < j as int && b > j as int {
                    assert(u[a] == s[a] && u[b] == s[b - 1]);
                } else {
                    assert(u[a] == s[a - 1] && u[b] == s[b - 1]);
                }
            }
            assert forall|a: int, b: int| 0 <= a <= b < u.len() implies u[a].created_at
                >= u[b].created_at by {
                if b < j as int {
                } else if a == j as int {
                    if b > j as int {
                        assert(u[b] == s[b - 1]);
                        assert(s[j as int].created_at <= tenant@.created_at || j as int == s.len());
                        assert(s[b - 1].created_at <= tenant@.created_at);
                    }
                } else if b == j as int {
                    if a < j as int {
                        assert(u[a] == s[a]);
                    }
                } else if a < j as int && b > j as int {
                    assert(u[a] == s[a] && u[b] == s[b - 1]);
                } else {
                    assert(u[a] == s[a - 1] && u[b] == s[b - 1]);
                }
            }
        }
        Ok(())
    }

    fn update(&mut self, tenant: &Tenant) -> (r: Result<(), DomainError>) {
        let ghost s = old(self).tenants();
        let n = self.items.len();
        let mut i: usize = 0;
        while i < n
            invariant
                i <= n,
                n == self.items.len(),
                self.items@ == old(self).items@,
                s == self.tenants(),
                s.len() == n,
                self.inv(),
                forall|k: int| 0 <= k < i ==> s[k].id != tenant@.id,
            decreases n - i,
        {
            if str_eq(self.items[i].id.as_str(), tenant.id.as_str()) {
                let name = tenant.name.clone();
                self.items[i].name = name;
                self.items[i].updated_at = tenant.updated_at;
                proof {
                    let u = self.tenants();
                    assert forall|k: int| 0 <= k < n && k != i as int implies s[k].id
                        != tenant@.id by {
                        if k > i as int {
                            assert(s[i as int].id != s[k].id);
                        }
                    }
                    assert(u =~= store_tenant(s, tenant@));
                    assert(tenant_ids_unique(u)) by {
                        assert(forall|k: int| 0 <= k < u.len() ==> u[k].id == s[k].id);
                    }
                    assert(tenants_sorted(u)) by {
                        assert(forall|k: int|
                            0 <= k < u.len() ==> u[k].created_at == s[k].created_at);
                    }
                }
                return Ok(());
            }
            i += 1;
        }
        proof {
            assert(self.tenants() =~= store_tenant(s, tenant@));
        }
        Ok(())
    }

    fn delete(&mut self, id: &TenantId) -> (r: Result<(), DomainError>) {
        let ghost s = old(self).tenants();
        let n = self.items.len();
        let mut kept: Vec<Tenant> = Vec::new();
        let mut i: usize = 0;
        proof {
            assert(s.take(0).filter(keeps_tenant(id@)) =~= Seq::<TenantView>::empty()) by {
                reveal(Seq::filter);
                assert(s.take(0) =~= Seq::<TenantView>::empty());
            }
            assert(views_of_tenants(kept@) =~= Seq::<TenantView>::empty());
        }
        while i < n
            invariant
                i <= n,
                n == self.items.len(),
                self.items@ == old(self).items@,
                s == self.tenants(),
                s.len() == n,
                self.inv(),
                views_of_tenants(kept@) == s.take(i as int).filter(keeps_tenant(id@)),
            decreases n - i,
        {
            let ghost prev = views_of_tenants(kept@);
            if !str_eq(self.items[i].id.as_str(), id.as_str()) {
                kept.push(self.items[i].clone());
                proof {
                    assert(views_of_tenants(kept@) =~= prev.push(s[i as int]));
                }
            }
            proof {
                lemma_filter_push(s.take(i as int), s[i as int], keeps_tenant(id@));
                assert(s.take(i as int + 1) =~= s.take(i as int).push(s[i as int]));
            }
            i += 1;
        }
        proof {
            assert(s.take(n as int) =~= s);
            lemma_tenant_filter_keeps_order(s, keeps_tenant(id@));
        }
        self.items = kept;
        proof {
            assert(self.tenants() == remove_tenant(s, id@));
        }
        Ok(())
    }
}

} // verus!
