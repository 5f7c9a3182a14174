//! An in-memory staff store: a vector kept in creation-time descending
//! order with unique identifiers, meeting the repository contract.

use vstd::prelude::*;

use crate::error::DomainError;
use crate::repository::staff::{
    filter_staffs, has_staff, insert_staff, keeps_staff, lemma_staff_insert_pos, remove_staff,
    staff_ids_unique, staff_index, staff_insert_pos, staff_matches_get, staff_of_tenant,
    staff_query_selective, staff_with_id, staffs_sorted, store_staff, views_of_staffs,
    GetStaffQuery, ListStaffQuery, StaffRepository,
};
use crate::repository::{lemma_filter_push, page, page_end, page_start};
use crate::staff::{persisted_staff, Staff, StaffId, StaffView};
use crate::text::str_eq;

verus! {

pub struct MemoryStaffRepository {
    items: Vec<Staff>,
}

/// Filtering a store with unique identifiers kept in creation-time
/// order leaves identifiers unique and the order intact.
proof fn lemma_staff_filter_keeps_order(s: Seq<StaffView>, p: spec_fn(StaffView) -> bool)
    requires
        staff_ids_unique(s),
        staffs_sorted(s),
    ensures
        staff_ids_unique(s.filter(p)),
        staffs_sorted(s.filter(p)),
        forall|a: int|
            0 <= a < s.filter(p).len() ==> exists|j: int|
                0 <= j < s.len() && s[j] == #[trigger] s.filter(p)[a],
    decreases s.len(),
{
    reveal(Seq::filter);
    if s.len() == 0 {
    } else {
        let d = s.drop_last();
        let l = s.last();
        assert(staff_ids_unique(d)) by {
            assert(forall|i: int| 0 <= i < d.len() ==> d[i] == s[i]);
        }
        assert(staffs_sorted(d)) by {
            assert(forall|i: int| 0 <= i < d.len() ==> d[i] == s[i]);
        }
        lemma_staff_filter_keeps_order(d, p);
        let fd = d.filter(p);
        assert forall|a: int| 0 <= a < fd.len() implies exists|j: int|
            0 <= j < s.len() && s[j] == #[trigger] fd[a] by {
            let j = choose|j: int| 0 <= j < d.len() && d[j] == fd[a];
            assert(s[j] == fd[a]);
        }
        if p(l) {
            assert(s.filter(p) == fd.push(l));
            assert forall|a: int| 0 <= a < fd.len() implies fd[a].id != l.id && fd[a].created_at
                >= l.created_at by {
                let j = choose|j: int| 0 <= j < d.len() && d[j] == fd[a];
                assert(s[j].id != s[s.len() - 1].id);
                assert(s[j].created_at >= s[s.len() - 1].created_at);
            }
        } else {
            assert(s.filter(p) == fd);
        }
    }
}

impl MemoryStaffRepository {
    /// An empty store.
    pub fn new() -> (r: Self)
        ensures
            r.inv(),
            r.staffs() == Seq::<StaffView>::empty(),
    {
        let r = MemoryStaffRepository { items: Vec::new() };
        proof {
            assert(r.staffs() =~= Seq::<StaffView>::empty());
        }
        r
    }

    /// Whether a stored row meets every criterion the query names.
    fn row_matches(row: &Staff, query: &GetStaffQuery) -> (r: bool)
        ensures
            r == staff_matches_get(row@, *query),
    {
        let id_ok = match &query.id {
            Some(qid) => str_eq(row.id.as_str(), qid.as_str()),
            None => true,
        };
        let auth_ok = match &query.auth_uid {
            Some(qa) => str_eq(row.auth_uid.as_str(), qa.as_str()),
            None => true,
        };
        id_ok && auth_ok
    }
}

impl StaffRepository for MemoryStaffRepository {
    closed spec fn staffs(&self) -> Seq<StaffView> {
        views_of_staffs(self.items@)
    }

    closed spec fn inv(&self) -> bool {
        staff_ids_unique(self.staffs()) && staffs_sorted(self.staffs())
    }

    fn get(&self, query: GetStaffQuery) -> (r: Result<Option<Staff>, DomainError>) {
        let ghost s = self.staffs();
        if query.id.is_none() && query.auth_uid.is_none() {
            return Ok(None);
        }
        let n = self.items.len();
        let mut i: usize = 0;
        while i < n
            invariant
                i <= n,
                n == self.items.len(),
                s == self.staffs(),
                s.len() == n,
                self.inv(),
                staff_query_selective(query),
                forall|k: int| 0 <= k < i ==> !staff_matches_get(s[k], query),
            decreases n - i,
        {
            if Self::row_matches(&self.items[i], &query) {
                let t = self.items[i].clone();
                proof {
                    assert(t@ == s[i as int]);
                    assert(s.contains(t@));
                    if query.id is Some {
                        let qid = query.id->0;
                        assert(has_staff(s, qid@));
                        let j = staff_index(s, qid@);
                        if j < i as int {
                            assert(s[j].id != s[i as int].id);
                        }
                        if j > i as int {
                            assert(s[i as int].id != s[j].id);
                        }
                        assert(t@ == staff_with_id(s, qid@));
                    }
                }
                return Ok(Some(t));
            }
            i += 1;
        }
        Ok(None)
    }

    fn list(&self, query: ListStaffQuery) -> (r: Result<Vec<Staff>, DomainError>) {
        let ghost s = self.staffs();
        let ghost fs = filter_staffs(s, query.tenant_id.deep_view());
        let n = self.items.len();
        let mut all: Vec<Staff> = Vec::new();
        let mut i: usize = 0;
        proof {
            if query.tenant_id is Some {
                let ghost tid = query.tenant_id->0@;
                assert(s.take(0).filter(staff_of_tenant(tid)) =~= Seq::<StaffView>::empty()) by {
                    reveal(Seq::filter);
                    assert(s.take(0) =~= Seq::<StaffView>::empty());
                }
            }
            assert(views_of_staffs(all@) =~= Seq::<StaffView>::empty());
            assert(s.take(0) =~= Seq::<StaffView>::empty());
        }
        while i < n
            invariant
                i <= n,
                n == self.items.len(),
                s == self.staffs(),
                s.len() == n,
                self.inv(),
                views_of_staffs(all@) == filter_staffs(
                    s.take(i as int),
                    query.tenant_id.deep_view(),
                ),
            decreases n - i,
        {
            let ghost prev = views_of_staffs(all@);
            let keep = match &query.tenant_id {
                Some(tid) => str_eq(self.items[i].tenant_id.as_str(), tid.as_str()),
                None => true,
            };
            if keep {
                let c = self.items[i].clone();
                let ghost cv = c@;
                all.push(c);
                proof {
                    assert(cv == s[i as int]);
                    assert(views_of_staffs(all@) =~= prev.push(cv));
                }
            }
            proof {
                if query.tenant_id is Some {
                    let qt = query.tenant_id->0;
                    lemma_filter_push(s.take(i as int), s[i as int], staff_of_tenant(qt@));
                }
                assert(s.take(i as int + 1) =~= s.take(i as int).push(s[i as int]));
            }
            i += 1;
        }
        proof {
            assert(s.take(n as int) =~= s);
            assert(views_of_staffs(all@) == fs);
        }
        // Page the filtered rows.
        let m = all.len();
        let start: usize = match query.offset {
            Some(o) => if o >= m as u64 {
                m
            } else {
                o as usize
            },
            None => 0,
        };
        let end: usize = match query.limit {
            Some(l) => {
                let rem = m - start;
                if l >= rem as u64 {
                    m
                } else {
                    start + (l as usize)
                }
            },
            None => m,
        };
        proof {
            assert(fs.len() == m);
            assert(start as int == page_start(fs, query.offset));
            assert(end as int == page_end(fs, query.limit, query.offset));
        }
        let mut v: Vec<Staff> = Vec::new();
        let mut k: usize = start;
        proof {
            assert(views_of_staffs(v@) =~= fs.subrange(start as int, start as int));
        }
        while k < end
            invariant
                start <= k <= end <= m,
                m == all.len(),
                fs == views_of_staffs(all@),
                fs.len() == m,
                views_of_staffs(v@) == fs.subrange(start as int, k as int),
            decreases end - k,
        {
            let ghost prev = views_of_staffs(v@);
            let c = all[k].clone();
            let ghost cv = c@;
            v.push(c);
            proof {
                assert(cv == fs[k as int]);
                assert(views_of_staffs(v@) =~= prev.push(cv));
                assert(prev.push(cv) =~= fs.subrange(start as int, k as int + 1));
            }
            k += 1;
        }
        proof {
            assert(fs.subrange(start as int, end as int) == page(fs, query.limit, query.offset));
        }
        Ok(v)
    }

    fn count(&self, query: ListStaffQuery) -> (r: Result<u64, DomainError>) {
        let ghost s = self.staffs();
        let ghost fs = filter_staffs(s, query.tenant_id.deep_view());
        let tid = match &query.tenant_id {
            None => {
                return Ok(self.items.len() as u64);
            },
            Some(tid) => tid,
        };
        let n = self.items.len();
        let mut cnt: usize = 0;
        let mut i: usize = 0;
        proof {
            assert(s.take(0).filter(staff_of_tenant(tid@)) =~= Seq::<StaffView>::empty()) by {
                reveal(Seq::filter);
                assert(s.take(0) =~= Seq::<StaffView>::empty());
            }
        }
        while i < n
            invariant
                i <= n,
                cnt <= i,
                n == self.items.len(),
                s == self.staffs(),
                s.len() == n,
                query.tenant_id is Some,
                tid == query.tenant_id->0,
                cnt as int == s.take(i as int).filter(staff_of_tenant(tid@)).len(),
            decreases n - i,
        {
            proof {
                lemma_filter_push(s.take(i as int), s[i as int], staff_of_tenant(tid@));
                assert(s.take(i as int + 1) =~= s.take(i as int).push(s[i as int]));
            }
            if str_eq(self.items[i].tenant_id.as_str(), tid.as_str()) {
                cnt = cnt + 1;
            }
            i += 1;
        }
        proof {
            assert(s.take(n as int) =~= s);
        }
        Ok(cnt as u64)
    }

    fn create(&mut self, staff: &Staff) -> (r: Result<(), DomainError>) {
        let ghost s = old(self).staffs();
        let n = self.items.len();
        let mut i: usize = 0;
        while i < n
            invariant
                i <= n,
                n == self.items.len(),
                self.items@ == old(self).items@,
                s == self.staffs(),
                s.len() == n,
                self.inv(),
                forall|k: int| 0 <= k < i ==> s[k].id != staff@.id,
            decreases n - i,
        {
            if str_eq(self.items[i].id.as_str(), staff.id.as_str()) {
                return Err(DomainError::internal("DB_ERROR", "duplicate key value".to_owned()));
            }
            i += 1;
        }
        let mut j: usize = 0;
        while j < n && self.items[j].created_at > staff.created_at
            invariant
                j <= n,
                n == self.items.len(),
                self.items@ == old(self).items@,
                s == self.staffs(),
                s.len() == n,
                self.inv(),
                forall|k: int| 0 <= k < j ==> s[k].created_at > staff@.created_at,
            decreases n - j,
        {
            j += 1;
        }
        proof {
            lemma_staff_insert_pos(s, staff@.created_at);
            let pos = staff_insert_pos(s, staff@.created_at);
            if pos < j as int {
                assert(s[pos].created_at > staff@.created_at);
                assert(false);
            }
            if pos > j as int {
                assert(s[j as int].created_at <= staff@.created_at);
                assert(false);
            }
        }
        let mut c = staff.clone();
        c.image_url = None;
        c.tenant = None;
        let ghost cv = c@;
        proof {
            assert(cv =~= persisted_staff(staff@));
        }
        self.items.insert(j, c);
        proof {
            let u = self.staffs();
            assert(u =~= s.insert(j as int, cv)) by {
                s.insert_ensures(j as int, cv);
                old(self).items@.insert_ensures(j as int, c);
            }
            assert(u == insert_staff(s, staff@));
            s.insert_ensures(j as int, cv);
            assert forall|a: int, b: int| 0 <= a < b < u.len() implies u[a].id != u[b].id by {
                if b < j as int {
                } else if a == j as int {
                    assert(u[b] == s[b - 1]);
                } else if b == j as int {
                    assert(u[a] == s[a]);
                } else if a < j as int && b > j as int {
                    assert(u[a] == s[a] && u[b] == s[b - 1]);
                } else {
                    assert(u[a] == s[a - 1] && u[b] == s[b - 1]);
                }
            }
            assert forall|a: int, b: int| 0 <= a <= b < u.len() implies u[a].created_at
                >= u[b].created_at by {
                if b < j as int {
                } else if a == j as int {
                    if b > j as int {
                        assert(u[b] == s[b - 1]);
                        assert(s[b - 1].created_at <= staff@.created_at);
                    }
                } else if b == j as int {
                    if a < j as int {
                        assert(u[a] == s[a]);
                    }
                } else if a < j as int && b > j as int {
                    assert(u[a] == s[a] && u[b] == s[b - 1]);
                } else {
                    assert(u[a] == s[a - 1] && u[b] == s[b - 1]);
                }
            }
        }
        Ok(())
    }

    fn update(&mut self, staff: &Staff) -> (r: Result<(), DomainError>) {
        let ghost s = old(self).staffs();
        let n = self.items.len();
        let mut i: usize = 0;
        while i < n
            invariant
                i <= n,
                n == self.items.len(),
                self.items@ == old(self).items@,
                s == self.staffs(),
                s.len() == n,
                self.inv(),
                forall|k: int| 0 <= k < i ==> s[k].id != staff@.id,
            decreases n - i,
        {
            if str_eq(self.items[i].id.as_str(), staff.id.as_str()) {
                let display_name = staff.display_name.clone();
                let image_path = staff.image_path.clone();
                let email = staff.email.clone();
                self.items[i].role = staff.role;
                self.items[i].display_name = display_name;
                self.items[i].image_path = image_path;
                self.items[i].email = email;
                self.items[i].updated_at = staff.updated_at;
                proof {
                    let u = self.staffs();
                    assert forall|k: int| 0 <= k < n && k != i as int implies s[k].id
                        != staff@.id by {
                        if k > i as int {
                            assert(s[i as int].id != s[k].id);
                        }
                    }
                    assert(u =~= store_staff(s, staff@));
                    assert(staff_ids_unique(u)) by {
                        assert(forall|k: int| 0 <= k < u.len() ==> u[k].id == s[k].id);
                    }
                    assert(staffs_sorted(u)) by {
                        assert(forall|k: int|
                            0 <= k < u.len() ==> u[k].created_at == s[k].created_at);
                    }
                }
                return Ok(());
            }
            i += 1;
        }
        proof {
            assert(self.staffs() =~= store_staff(s, staff@));
        }
        Ok(())
    }

    fn delete(&mut self, id: &StaffId) -> (r: Result<(), DomainError>) {
        let ghost s = old(self).staffs();
        let n = self.items.len();
        let mut kept: Vec<Staff> = Vec::new();
        let mut i: usize = 0;
        proof {
            assert(s.take(0).filter(keeps_staff(id@)) =~= Seq::<StaffView>::empty()) by {
                reveal(Seq::filter);
                assert(s.take(0) =~= Seq::<StaffView>::empty());
            }
            assert(views_of_staffs(kept@) =~= Seq::<StaffView>::empty());
        }
        while i < n
            invariant
                i <= n,
                n == self.items.len(),
                self.items@ == old(self).items@,
                s == self.staffs(),
                s.len() == n,
                self.inv(),
                views_of_staffs(kept@) == s.take(i as int).filter(keeps_staff(id@)),
            decreases n - i,
        {
            let ghost prev = views_of_staffs(kept@);
            if !str_eq(self.items[i].id.as_str(), id.as_str()) {
                let c = self.items[i].clone();
                let ghost cv = c@;
                kept.push(c);
                proof {
                    assert(cv == s[i as int]);
                    assert(views_of_staffs(kept@) =~= prev.push(cv));
                }
            }
            proof {
                lemma_filter_push(s.take(i as int), s[i as int], keeps_staff(id@));
                assert(s.take(i as int + 1) =~= s.take(i as int).push(s[i as int]));
            }
            i += 1;
        }
        proof {
            assert(s.take(n as int) =~= s);
            lemma_staff_filter_keeps_order(s, keeps_staff(id@));
        }
        self.items = kept;
        proof {
            assert(self.staffs() == remove_staff(s, id@));
        }
        Ok(())
    }
}

} // verus!
