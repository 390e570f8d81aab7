//! Version numbers of trust-metadata documents.

use crate::text::{decimal_text, push_decimal};
use std::cmp::Ordering;
use vstd::prelude::*;
use vstd::std_specs::cmp::PartialOrdSpecImpl;
use vstd::string::*;

verus! {

/// The version number that stands for "the latest stored version". No stored
/// document carries it.
pub const ANY_VERSION: i32 = -1;

/// The version of a metadata document, or the request for the latest one.
#[derive(Debug, Clone, Copy, PartialEq, Eq, Structural, Ord)]
pub struct Version {
    version: i32,
}

impl Version {
    /// The number this version holds.
    pub closed spec fn value(self) -> int {
        self.version as int
    }

    /// The name of the file that holds `role` at a version numbered `version`.
    pub open spec fn file_name(role: Seq<char>, version: int) -> Seq<char> {
        role + "_v"@ + decimal_text(version) + ".json"@
    }

    /// The version that asks for the latest document.
    pub fn new() -> (v: Version)
        ensures
            v.value() == ANY_VERSION,
    {
        Version { version: ANY_VERSION }
    }

    /// The version with the given number.
    pub fn from_int(v: i32) -> (r: Version)
        ensures
            r.value() == v,
    {
        Version { version: v }
    }

    /// The number of this version.
    pub fn version(&self) -> (v: i32)
        ensures
            v == self.value(),
    {
        self.version
    }

    /// The file name of `role` at this version: the role, `_v`, the decimal
    /// version number and `.json`.
    pub fn role_file_name(&self, role: &str) -> (name: String)
        ensures
            name@ == Self::file_name(role@, self.value()),
    {
        let mut name = String::from_str(role);
        name.append("_v");
        push_decimal(&mut name, self.version);
        name.append(".json");
        name
    }

    /// Whether this version asks for the latest document.
    pub fn is_latest(&self) -> (b: bool)
        ensures
            b == (self.value() == ANY_VERSION),
    {
        self.version == ANY_VERSION
    }

    /// The decimal numeral of the version number.
    pub fn to_string(&self) -> (s: String)
        ensures
            s@ == decimal_text(self.value()),
    {
        let mut s = String::new();
        push_decimal(&mut s, self.version);
        s
    }
}

impl PartialOrd for Version {
    /// Versions are ordered by their numbers.
    fn partial_cmp(&self, other: &Self) -> (o: Option<Ordering>) {
        if self.version < other.version {
            Some(Ordering::Less)
        } else if self.version == other.version {
            Some(Ordering::Equal)
        } else {
            Some(Ordering::Greater)
        }
    }
}

impl PartialOrdSpecImpl for Version {
    open spec fn obeys_partial_cmp_spec() -> bool {
        true
    }

    open spec fn partial_cmp_spec(&self, other: &Self) -> Option<Ordering> {
        if self.value() < other.value() {
            Some(Ordering::Less)
        } else if self.value() == other.value() {
            Some(Ordering::Equal)
        } else {
            Some(Ordering::Greater)
        }
    }
}

} // verus!
