//! The Tenant entity: an opaque generated identifier, a mutable name,
//! an ordered collection of tags, and creation/update timestamps
//! (non-leap milliseconds since the epoch).

use vstd::prelude::*;

use crate::bridge::fresh_id;
use crate::tenant_tag_type::TenantTagType;

verus! {

#[derive(Debug, PartialEq, Eq)]
pub struct TenantId(String);

impl View for TenantId {
    type V = Seq<char>;

    closed spec fn view(&self) -> Seq<char> {
        self.0@
    }
}

impl DeepView for TenantId {
    type V = Seq<char>;

    open spec fn deep_view(&self) -> Seq<char> {
        self@
    }
}

impl TenantId {
    /// A fresh random unique token; always 36 characters, so never
    /// empty.
    pub fn new() -> (r: Self)
        ensures
            r@.len() == 36,
    {
        TenantId(fresh_id())
    }

    pub fn from_string(id: String) -> (r: Self)
        ensures
            r@ == id@,
    {
        TenantId(id)
    }

    pub fn as_str(&self) -> (r: &str)
        ensures
            r@ == self@,
    {
        self.0.as_str()
    }
}

impl Clone for TenantId {
    fn clone(&self) -> (r: Self)
        ensures
            r == *self,
    {
        TenantId(self.0.clone())
    }
}

impl Default for TenantId {
    fn default() -> (r: Self)
        ensures
            r@.len() == 36,
    {
        Self::new()
    }
}

#[derive(Debug, PartialEq, Eq)]
pub struct TenantTagId(String);

impl View for TenantTagId {
    type V = Seq<char>;

    closed spec fn view(&self) -> Seq<char> {
        self.0@
    }
}

impl TenantTagId {
    /// A fresh random unique token; always 36 characters.
    pub fn new() -> (r: Self)
        ensures
            r@.len() == 36,
    {
        TenantTagId(fresh_id())
    }

    pub fn from_string(id: String) -> (r: Self)
        ensures
            r@ == id@,
    {
        TenantTagId(id)
    }

    pub fn as_str(&self) -> (r: &str)
        ensures
            r@ == self@,
    {
        self.0.as_str()
    }
}

impl Clone for TenantTagId {
    fn clone(&self) -> (r: Self)
        ensures
            r == *self,
    {
        TenantTagId(self.0.clone())
    }
}

impl Default for TenantTagId {
    fn default() -> (r: Self)
        ensures
            r@.len() == 36,
    {
        Self::new()
    }
}

/// The mathematical value of a tenant tag.
#[verifier::ext_equal]
pub ghost struct TenantTagView {
    pub id: Seq<char>,
    pub tag_type: TenantTagType,
    pub created_at: int,
    pub updated_at: int,
}

#[derive(Debug)]
pub struct TenantTag {
    pub id: TenantTagId,
    pub tag_type: TenantTagType,
    pub created_at: i64,
    pub updated_at: i64,
}

impl View for TenantTag {
    type V = TenantTagView;

    open spec fn view(&self) -> TenantTagView {
        TenantTagView {
            id: self.id@,
            tag_type: self.tag_type,
            created_at: self.created_at as int,
            updated_at: self.updated_at as int,
        }
    }
}

impl TenantTag {
    /// A fresh tag: new identifier, both timestamps set to `now`.
    pub fn new(tag_type: TenantTagType, now: i64) -> (r: Self)
        ensures
            r@.id.len() == 36,
            r@.tag_type == tag_type,
            r@.created_at == now as int,
            r@.updated_at == now as int,
    {
        TenantTag { id: TenantTagId::new(), tag_type, created_at: now, updated_at: now }
    }
}

impl Clone for TenantTag {
    fn clone(&self) -> (r: Self)
        ensures
            r == *self,
    {
        TenantTag {
            id: self.id.clone(),
            tag_type: self.tag_type,
            created_at: self.created_at,
            updated_at: self.updated_at,
        }
    }
}

/// The mathematical value of a tenant.
#[verifier::ext_equal]
pub ghost struct TenantView {
    pub id: Seq<char>,
    pub name: Seq<char>,
    pub tags: Seq<TenantTagView>,
    pub created_at: int,
    pub updated_at: int,
}

#[derive(Debug)]
pub struct Tenant {
    pub id: TenantId,
    pub name: String,
    pub tags: Vec<TenantTag>,
    pub created_at: i64,
    pub updated_at: i64,
}

impl View for Tenant {
    type V = TenantView;

    open spec fn view(&self) -> TenantView {
        TenantView {
            id: self.id@,
            name: self.name@,
            tags: self.tags@.map_values(|g: TenantTag| g@),
            created_at: self.created_at as int,
            updated_at: self.updated_at as int,
        }
    }
}

/// The partial-update merge for tenants: a present `name` overwrites,
/// an absent one leaves the field untouched; `updated_at` is always
/// refreshed; identifier, tags and `created_at` never change.
pub open spec fn merge_tenant(t: TenantView, name: Option<Seq<char>>, now: int) -> TenantView {
    TenantView {
        name: match name {
            Some(n) => n,
            None => t.name,
        },
        updated_at: now,
        ..t
    }
}

impl Tenant {
    /// A fresh tenant: new identifier, no tags, both timestamps equal
    /// to `now`.
    pub fn new(name: String, now: i64) -> (r: Self)
        ensures
            r@.id.len() == 36,
            r@.name == name@,
            r@.tags.len() == 0,
            r@.created_at == now as int,
            r@.updated_at == now as int,
    {
        let r = Tenant { id: TenantId::new(), name, tags: Vec::new(), created_at: now, updated_at: now };
        proof {
            assert(r@.tags =~= Seq::<TenantTagView>::empty());
        }
        r
    }

    /// Applies the partial-update merge in place.
    pub fn update(&mut self, name: Option<String>, now: i64)
        ensures
            final(self)@ == merge_tenant(old(self)@, name.deep_view(), now as int),
    {
        if let Some(n) = name {
            self.name = n;
        }
        self.updated_at = now;
        proof {
            assert(self@ =~= merge_tenant(old(self)@, name.deep_view(), now as int));
        }
    }

    pub fn add_tag(&mut self, tag: TenantTag)
        ensures
            final(self)@ == (TenantView { tags: old(self)@.tags.push(tag@), ..old(self)@ }),
    {
        self.tags.push(tag);
        proof {
            assert(self@ =~= (TenantView { tags: old(self)@.tags.push(tag@), ..old(self)@ }));
        }
    }
}

impl Clone for Tenant {
    fn clone(&self) -> (r: Self)
        ensures
            r@ == self@,
    {
        let tags = self.tags.clone();
        proof {
            assert(tags@ =~= self.tags@);
        }
        let r = Tenant {
            id: self.id.clone(),
            name: self.name.clone(),
            tags,
            created_at: self.created_at,
            updated_at: self.updated_at,
        };
        proof {
            assert(r@ =~= self@);
        }
        r
    }
}

} // verus!
