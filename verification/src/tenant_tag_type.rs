//! Tenant tag types, with the same lenient total parse as staff roles.

use vstd::prelude::*;

use crate::text::str_eq;

verus! {

#[derive(Clone, Copy, Debug, PartialEq, Eq, Hash, Structural)]
pub enum TenantTagType {
    Unknown,
    Entertainment,
    Education,
    Business,
    Other,
}

impl TenantTagType {
    /// The total parsing function: recognized names map to their
    /// variant, everything else to `Unknown`.
    pub open spec fn spec_parse(s: Seq<char>) -> TenantTagType {
        if s == "entertainment"@ {
            TenantTagType::Entertainment
        } else if s == "education"@ {
            TenantTagType::Education
        } else if s == "business"@ {
            TenantTagType::Business
        } else if s == "other"@ {
            TenantTagType::Other
        } else {
            TenantTagType::Unknown
        }
    }

    /// The canonical name of each variant.
    pub open spec fn spec_str(self) -> Seq<char> {
        match self {
            TenantTagType::Unknown => "unknown"@,
            TenantTagType::Entertainment => "entertainment"@,
            TenantTagType::Education => "education"@,
            TenantTagType::Business => "business"@,
            TenantTagType::Other => "other"@,
        }
    }

    /// Lenient parse: total on strings, never fails.
    pub fn parse_str(s: &str) -> (r: TenantTagType)
        ensures
            r == Self::spec_parse(s@),
    {
        if str_eq(s, "entertainment") {
            TenantTagType::Entertainment
        } else if str_eq(s, "education") {
            TenantTagType::Education
        } else if str_eq(s, "business") {
            TenantTagType::Business
        } else if str_eq(s, "other") {
            TenantTagType::Other
        } else {
            TenantTagType::Unknown
        }
    }

    pub fn is_valid(&self) -> (r: bool)
        ensures
            r == !(self is Unknown),
    {
        !matches!(self, TenantTagType::Unknown)
    }

    pub fn as_str(&self) -> (r: &'static str)
        ensures
            r@ == self.spec_str(),
    {
        match self {
            TenantTagType::Unknown => "unknown",
            TenantTagType::Entertainment => "entertainment",
            TenantTagType::Education => "education",
            TenantTagType::Business => "business",
            TenantTagType::Other => "other",
        }
    }

    pub fn to_string(&self) -> (r: String)
        ensures
            r@ == self.spec_str(),
    {
        self.as_str().to_owned()
    }
}

impl core::str::FromStr for TenantTagType {
    type Err = ();

    fn from_str(s: &str) -> core::result::Result<TenantTagType, ()> {
        Ok(TenantTagType::parse_str(s))
    }
}

impl Default for TenantTagType {
    fn default() -> (r: Self)
        ensures
            r is Unknown,
    {
        TenantTagType::Unknown
    }
}

} // verus!
