//! Tenant persistence: the SQL text for each operation and the mapping
//! from rows to entities.

use vstd::prelude::*;

use crate::database::dec_digits;
use crate::database::u64_to_dec;
use crate::repository::tenant::ListTenantQuery;
use crate::tenant::{Tenant, TenantId};

verus! {

use vstd::string::StringExecFns;

/// One row of the `tenants` table, timestamps as non-leap milliseconds
/// since the epoch.
#[derive(Debug)]
pub struct TenantRow {
    pub id: String,
    pub name: String,
    pub created_at: i64,
    pub updated_at: i64,
}

/// A row becomes an entity with no tags loaded.
pub fn tenant_from_row(row: TenantRow) -> (t: Tenant)
    ensures
        t@.id == row.id@,
        t@.name == row.name@,
        t@.tags.len() == 0,
        t@.created_at == row.created_at as int,
        t@.updated_at == row.updated_at as int,
{
    let t = Tenant {
        id: TenantId::from_string(row.id),
        name: row.name,
        tags: Vec::new(),
        created_at: row.created_at,
        updated_at: row.updated_at,
    };
    proof {
        assert(t@.tags =~= Seq::<crate::tenant::TenantTagView>::empty());
    }
    t
}

/// The text a tenant list executes: unconditional, ordered newest
/// first, with the requested pagination appended.
pub open spec fn spec_tenant_list_sql(limit: Option<u64>, offset: Option<u64>) -> Seq<char> {
    "SELECT * FROM tenants ORDER BY created_at DESC"@ + (match limit {
        Some(l) => " LIMIT "@ + dec_digits(l as int),
        None => Seq::<char>::empty(),
    }) + (match offset {
        Some(o) => " OFFSET "@ + dec_digits(o as int),
        None => Seq::<char>::empty(),
    })
}

pub fn tenant_list_sql(query: &ListTenantQuery) -> (s: String)
    ensures
        s@ == spec_tenant_list_sql(query.limit, query.offset),
{
    let mut s = String::from_str("SELECT * FROM tenants ORDER BY created_at DESC");
    if let Some(l) = query.limit {
        s.append(" LIMIT ");
        let d = u64_to_dec(l);
        s.append(d.as_str());
    }
    if let Some(o) = query.offset {
        s.append(" OFFSET ");
        let d = u64_to_dec(o);
        s.append(d.as_str());
    }
    proof {
        assert(s@ =~= spec_tenant_list_sql(query.limit, query.offset));
    }
    s
}

pub fn tenant_get_sql() -> (s: &'static str)
    ensures
        s@ == "SELECT * FROM tenants WHERE id = $1"@,
{
    "SELECT * FROM tenants WHERE id = $1"
}

pub fn tenant_count_sql() -> (s: &'static str)
    ensures
        s@ == "SELECT COUNT(*) FROM tenants"@,
{
    "SELECT COUNT(*) FROM tenants"
}

pub fn tenant_insert_sql() -> (s: &'static str)
    ensures
        s@ == "INSERT INTO tenants (id, name, created_at, updated_at) VALUES ($1, $2, $3, $4)"@,
{
    "INSERT INTO tenants (id, name, created_at, updated_at) VALUES ($1, $2, $3, $4)"
}

pub fn tenant_update_sql() -> (s: &'static str)
    ensures
        s@ == "UPDATE tenants SET name = $2, updated_at = $3 WHERE id = $1"@,
{
    "UPDATE tenants SET name = $2, updated_at = $3 WHERE id = $1"
}

pub fn tenant_delete_sql() -> (s: &'static str)
    ensures
        s@ == "DELETE FROM tenants WHERE id = $1"@,
{
    "DELETE FROM tenants WHERE id = $1"
}

} // verus!
