//! Staff roles, with the lenient total parse: any input string maps to
//! a variant, unrecognized ones to `Unknown`.

use vstd::prelude::*;

use crate::text::str_eq;

verus! {

#[derive(Clone, Copy, Debug, PartialEq, Eq, Hash, Structural)]
pub enum StaffRole {
    Unknown,
    Normal,
    Admin,
}

impl StaffRole {
    /// The total parsing function: recognized names map to their
    /// variant, everything else to `Unknown`.
    pub open spec fn spec_parse(s: Seq<char>) -> StaffRole {
        if s == "normal"@ {
            StaffRole::Normal
        } else if s == "admin"@ {
            StaffRole::Admin
        } else {
            StaffRole::Unknown
        }
    }

    /// The canonical name of each variant.
    pub open spec fn spec_str(self) -> Seq<char> {
        match self {
            StaffRole::Unknown => "unknown"@,
            StaffRole::Normal => "normal"@,
            StaffRole::Admin => "admin"@,
        }
    }

    /// Lenient parse: total on strings, never fails.
    pub fn parse_str(s: &str) -> (r: StaffRole)
        ensures
            r == Self::spec_parse(s@),
    {
        if str_eq(s, "normal") {
            StaffRole::Normal
        } else if str_eq(s, "admin") {
            StaffRole::Admin
        } else {
            StaffRole::Unknown
        }
    }

    pub fn is_valid(&self) -> (r: bool)
        ensures
            r == !(self is Unknown),
    {
        !matches!(self, StaffRole::Unknown)
    }

    pub fn is_admin(&self) -> (r: bool)
        ensures
            r == (self is Admin),
    {
        matches!(self, StaffRole::Admin)
    }

    pub fn as_str(&self) -> (r: &'static str)
        ensures
            r@ == self.spec_str(),
    {
        match self {
            StaffRole::Unknown => "unknown",
            StaffRole::Normal => "normal",
            StaffRole::Admin => "admin",
        }
    }

    pub fn to_string(&self) -> (r: String)
        ensures
            r@ == self.spec_str(),
    {
        self.as_str().to_owned()
    }
}

impl core::str::FromStr for StaffRole {
    type Err = ();

    fn from_str(s: &str) -> core::result::Result<StaffRole, ()> {
        Ok(StaffRole::parse_str(s))
    }
}

impl Default for StaffRole {
    fn default() -> (r: Self)
        ensures
            r is Unknown,
    {
        StaffRole::Unknown
    }
}

} // verus!
