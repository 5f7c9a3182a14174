//! Staff persistence: the SQL text for each operation, built from the
//! query's criteria, and the mapping from rows to entities (role
//! parsed leniently, transient fields left unset).

use vstd::prelude::*;

use crate::database::dec_digits;
use crate::database::u64_to_dec;
use crate::repository::staff::{GetStaffQuery, ListStaffQuery};
use crate::staff::{Staff, StaffId};
use crate::staff_role::StaffRole;
use crate::tenant::TenantId;

verus! {

use vstd::string::StringExecFns;

/// One row of the `staffs` table, timestamps as non-leap milliseconds
/// since the epoch, the role as stored text.
#[derive(Debug)]
pub struct StaffRow {
    pub id: String,
    pub tenant_id: String,
    pub role: String,
    pub auth_uid: String,
    pub display_name: String,
    pub image_path: String,
    pub email: String,
    pub created_at: i64,
    pub updated_at: i64,
}

/// A row becomes an entity: the stored role text is parsed leniently
/// (unrecognized text becomes `Unknown`), and the transient fields are
/// left unset.
pub fn staff_from_row(row: StaffRow) -> (t: Staff)
    ensures
        t@.id == row.id@,
        t@.tenant_id == row.tenant_id@,
        t@.role == StaffRole::spec_parse(row.role@),
        t@.auth_uid == row.auth_uid@,
        t@.display_name == row.display_name@,
        t@.image_path == row.image_path@,
        t@.email == row.email@,
        t@.created_at == row.created_at as int,
        t@.updated_at == row.updated_at as int,
        t@.image_url is None,
        t@.tenant is None,
{
    Staff {
        id: StaffId::from_string(row.id),
        tenant_id: TenantId::from_string(row.tenant_id),
        role: StaffRole::parse_str(row.role.as_str()),
        auth_uid: row.auth_uid,
        display_name: row.display_name,
        image_path: row.image_path,
        email: row.email,
        created_at: row.created_at,
        updated_at: row.updated_at,
        image_url: None,
        tenant: None,
    }
}

/// The text a staff lookup executes, one form per combination of
/// criteria (identifier bound as `$1`, auth identifier as the next
/// placeholder). With no criterion nothing is executed; the base form
/// stands for that case.
pub open spec fn spec_staff_get_sql(has_id: bool, has_auth: bool) -> Seq<char> {
    if has_id && has_auth {
        "SELECT * FROM staffs WHERE 1=1 AND id = $1 AND auth_uid = $2"@
    } else if has_id {
        "SELECT * FROM staffs WHERE id = $1"@
    } else if has_auth {
        "SELECT * FROM staffs WHERE auth_uid = $1"@
    } else {
        "SELECT * FROM staffs WHERE 1=1"@
    }
}

pub fn staff_get_sql(query: &GetStaffQuery) -> (s: &'static str)
    ensures
        s@ == spec_staff_get_sql(query.id is Some, query.auth_uid is Some),
{
    match (&query.id, &query.auth_uid) {
        (Some(_), Some(_)) => "SELECT * FROM staffs WHERE 1=1 AND id = $1 AND auth_uid = $2",
        (Some(_), None) => "SELECT * FROM staffs WHERE id = $1",
        (None, Some(_)) => "SELECT * FROM staffs WHERE auth_uid = $1",
        (None, None) => "SELECT * FROM staffs WHERE 1=1",
    }
}

/// The text a staff list executes: filtered by owning tenant when the
/// query names one, ordered newest first, with the requested
/// pagination appended.
pub open spec fn spec_staff_list_sql(
    has_tenant: bool,
    limit: Option<u64>,
    offset: Option<u64>,
) -> Seq<char> {
    (if has_tenant {
        "SELECT * FROM staffs WHERE 1=1 AND tenant_id = $1 ORDER BY created_at DESC"@
    } else {
        "SELECT * FROM staffs ORDER BY created_at DESC"@
    }) + (match limit {
        Some(l) => " LIMIT "@ + dec_digits(l as int),
        None => Seq::<char>::empty(),
    }) + (match offset {
        Some(o) => " OFFSET "@ + dec_digits(o as int),
        None => Seq::<char>::empty(),
    })
}

pub fn staff_list_sql(query: &ListStaffQuery) -> (s: String)
    ensures
        s@ == spec_staff_list_sql(query.tenant_id is Some, query.limit, query.offset),
{
    let mut s = match &query.tenant_id {
        Some(_) => String::from_str(
            "SELECT * FROM staffs WHERE 1=1 AND tenant_id = $1 ORDER BY created_at DESC",
        ),
        None => String::from_str("SELECT * FROM staffs ORDER BY created_at DESC"),
    };
    if let Some(l) = query.limit {
        s.append(" LIMIT ");
        let d = u64_to_dec(l);
        s.append(d.as_str());
    }
    if let Some(o) = query.offset {
        s.append(" OFFSET ");
        let d = u64_to_dec(o);
        s.append(d.as_str());
    }
    proof {
        assert(s@ =~= spec_staff_list_sql(query.tenant_id is Some, query.limit, query.offset));
    }
    s
}

/// The text a staff count executes: same filter as the list, no
/// pagination.
pub fn staff_count_sql(query: &ListStaffQuery) -> (s: &'static str)
    ensures
        query.tenant_id is Some ==> s@ == "SELECT COUNT(*) FROM staffs WHERE tenant_id = $1"@,
        query.tenant_id is None ==> s@ == "SELECT COUNT(*) FROM staffs"@,
{
    match &query.tenant_id {
        Some(_) => "SELECT COUNT(*) FROM staffs WHERE tenant_id = $1",
        None => "SELECT COUNT(*) FROM staffs",
    }
}

pub fn staff_insert_sql() -> (s: &'static str)
    ensures
        s@ == "INSERT INTO staffs (id, tenant_id, role, auth_uid, display_name, image_path, email, created_at, updated_at) VALUES ($1, $2, $3, $4, $5, $6, $7, $8, $9)"@,
{
    "INSERT INTO staffs (id, tenant_id, role, auth_uid, display_name, image_path, email, created_at, updated_at) VALUES ($1, $2, $3, $4, $5, $6, $7, $8, $9)"
}

pub fn staff_update_sql() -> (s: &'static str)
    ensures
        s@ == "UPDATE staffs SET role = $2, display_name = $3, image_path = $4, email = $5, updated_at = $6 WHERE id = $1"@,
{
    "UPDATE staffs SET role = $2, display_name = $3, image_path = $4, email = $5, updated_at = $6 WHERE id = $1"
}

pub fn staff_delete_sql() -> (s: &'static str)
    ensures
        s@ == "DELETE FROM staffs WHERE id = $1"@,
{
    "DELETE FROM staffs WHERE id = $1"
}

} // verus!
