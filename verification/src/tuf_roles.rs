//! The roles under which trust metadata is signed.

use crate::text::{str_eq, str_less, text_less};
use std::cmp::Ordering;
use vstd::prelude::*;
use vstd::std_specs::cmp::{PartialEqSpecImpl, PartialOrdSpecImpl};
use vstd::string::*;

verus! {

/// The kinds of role. The six fixed roles have a name of their own; every
/// delegation has the kind `Delegation` and is told apart by its name.
#[derive(Debug, PartialEq, Eq, Clone, Copy, Structural)]
pub enum RoleEnum {
    Root,
    Snapshot,
    Targets,
    Timestamp,
    Delegation,
    OfflineSnapshot,
    OfflineUpdates,
    InvalidRole,
}

/// A role: its kind and its name.
#[derive(Debug, Eq)]
pub struct Role {
    role: RoleEnum,
    name: String,
}

/// What a role is, as contracts speak of it.
pub struct RoleView {
    pub role: RoleEnum,
    pub name: Seq<char>,
}

/// The number under which a kind of role is stored.
pub open spec fn role_code(role: RoleEnum) -> int {
    match role {
        RoleEnum::Root => 0,
        RoleEnum::Snapshot => 1,
        RoleEnum::Targets => 2,
        RoleEnum::Timestamp => 3,
        RoleEnum::Delegation => 4,
        RoleEnum::OfflineSnapshot => 5,
        RoleEnum::OfflineUpdates => 6,
        RoleEnum::InvalidRole => -1,
    }
}

/// The name that `Role::new` gives to a kind of role: its own name for each of
/// the six fixed roles, `invalidrole` for the rest.
pub open spec fn role_name(role: RoleEnum) -> Seq<char> {
    match role {
        RoleEnum::Root => "root"@,
        RoleEnum::Snapshot => "snapshot"@,
        RoleEnum::Targets => "targets"@,
        RoleEnum::Timestamp => "timestamp"@,
        RoleEnum::OfflineSnapshot => "offlinesnapshot"@,
        RoleEnum::OfflineUpdates => "offlineupdates"@,
        RoleEnum::Delegation => "invalidrole"@,
        RoleEnum::InvalidRole => "invalidrole"@,
    }
}

/// Whether a kind of role is one of the six fixed roles.
pub open spec fn is_fixed_role(role: RoleEnum) -> bool {
    role != RoleEnum::Delegation && role != RoleEnum::InvalidRole
}

/// Whether a name is that of one of the six fixed roles, so that no delegation
/// may take it.
pub open spec fn is_reserved_name(name: Seq<char>) -> bool {
    ||| name == "root"@
    ||| name == "snapshot"@
    ||| name == "targets"@
    ||| name == "timestamp"@
    ||| name == "offlinesnapshot"@
    ||| name == "offlineupdates"@
}

/// The role that `Role::new` makes of a kind.
pub open spec fn standard_role(role: RoleEnum) -> RoleView {
    RoleView { role, name: role_name(role) }
}

impl View for Role {
    type V = RoleView;

    closed spec fn view(&self) -> RoleView {
        RoleView { role: self.role, name: self.name@ }
    }
}

impl Clone for Role {
    fn clone(&self) -> (r: Self)
        ensures
            r@ == self@,
    {
        Role { role: self.role, name: self.name.clone() }
    }
}

impl Role {
    pub const ROOT: &'static str = "root";

    pub const SNAPSHOT: &'static str = "snapshot";

    pub const TARGETS: &'static str = "targets";

    pub const TIMESTAMP: &'static str = "timestamp";

    pub const OFFLINESNAPSHOT: &'static str = "offlinesnapshot";

    pub const OFFLINEUPDATES: &'static str = "offlineupdates";

    /// The root role.
    pub fn root() -> (r: Role)
        ensures
            r@ == standard_role(RoleEnum::Root),
    {
        Role::new(RoleEnum::Root)
    }

    /// The snapshot role.
    pub fn snapshot() -> (r: Role)
        ensures
            r@ == standard_role(RoleEnum::Snapshot),
    {
        Role::new(RoleEnum::Snapshot)
    }

    /// The targets role.
    pub fn targets() -> (r: Role)
        ensures
            r@ == standard_role(RoleEnum::Targets),
    {
        Role::new(RoleEnum::Targets)
    }

    /// The timestamp role.
    pub fn timestamp() -> (r: Role)
        ensures
            r@ == standard_role(RoleEnum::Timestamp),
    {
        Role::new(RoleEnum::Timestamp)
    }

    /// The offline snapshot role.
    pub fn offline_snapshot() -> (r: Role)
        ensures
            r@ == standard_role(RoleEnum::OfflineSnapshot),
    {
        Role::new(RoleEnum::OfflineSnapshot)
    }

    /// The offline updates role.
    pub fn offline_updates() -> (r: Role)
        ensures
            r@ == standard_role(RoleEnum::OfflineUpdates),
    {
        Role::new(RoleEnum::OfflineUpdates)
    }

    /// The role that stands for no valid role.
    pub fn invalid_role() -> (r: Role)
        ensures
            r@ == standard_role(RoleEnum::InvalidRole),
    {
        Role::new(RoleEnum::InvalidRole)
    }

    /// The delegation named `name`. The name is taken as it is: that it is not
    /// reserved is for the caller to see to, with `is_reserved`.
    pub fn delegation(name: &str) -> (r: Role)
        ensures
            r@ == (RoleView { role: RoleEnum::Delegation, name: name@ }),
    {
        Role { role: RoleEnum::Delegation, name: String::from_str(name) }
    }

    /// The role of the given kind under the name of that kind.
    pub fn new(role_enum: RoleEnum) -> (r: Role)
        ensures
            r@ == standard_role(role_enum),
    {
        let name = match role_enum {
            RoleEnum::Root => String::from_str(Role::ROOT),
            RoleEnum::Snapshot => String::from_str(Role::SNAPSHOT),
            RoleEnum::Targets => String::from_str(Role::TARGETS),
            RoleEnum::Timestamp => String::from_str(Role::TIMESTAMP),
            RoleEnum::OfflineSnapshot => String::from_str(Role::OFFLINESNAPSHOT),
            RoleEnum::OfflineUpdates => String::from_str(Role::OFFLINEUPDATES),
            _ => String::from_str("invalidrole"),
        };
        Role { role: role_enum, name }
    }

    /// The six fixed roles.
    pub fn roles() -> (all: Vec<Role>)
        ensures
            all@.len() == 6,
            all@[0]@ == standard_role(RoleEnum::Root),
            all@[1]@ == standard_role(RoleEnum::Snapshot),
            all@[2]@ == standard_role(RoleEnum::Targets),
            all@[3]@ == standard_role(RoleEnum::Timestamp),
            all@[4]@ == standard_role(RoleEnum::OfflineSnapshot),
            all@[5]@ == standard_role(RoleEnum::OfflineUpdates),
    {
        let mut all: Vec<Role> = Vec::new();
        all.push(Role::root());
        all.push(Role::snapshot());
        all.push(Role::targets());
        all.push(Role::timestamp());
        all.push(Role::offline_snapshot());
        all.push(Role::offline_updates());
        all
    }

    /// Whether `name` is the name of one of the six fixed roles.
    pub fn is_reserved(name: &str) -> (reserved: bool)
        ensures
            reserved == is_reserved_name(name@),
    {
        str_eq(name, Role::ROOT) || str_eq(name, Role::SNAPSHOT) || str_eq(name, Role::TARGETS)
            || str_eq(name, Role::TIMESTAMP) || str_eq(name, Role::OFFLINESNAPSHOT) || str_eq(
            name,
            Role::OFFLINEUPDATES,
        )
    }

    /// The name of the role.
    pub fn to_string(&self) -> (name: String)
        ensures
            name@ == self@.name,
    {
        self.name.clone()
    }

    /// The number under which the kind of the role is stored.
    pub fn to_int(&self) -> (code: i32)
        ensures
            code == role_code(self@.role),
    {
        match self.role {
            RoleEnum::Root => 0,
            RoleEnum::Snapshot => 1,
            RoleEnum::Targets => 2,
            RoleEnum::Timestamp => 3,
            RoleEnum::Delegation => 4,
            RoleEnum::OfflineSnapshot => 5,
            RoleEnum::OfflineUpdates => 6,
            RoleEnum::InvalidRole => -1,
        }
    }

    /// Whether the role is a delegation.
    pub fn is_delegation(&self) -> (b: bool)
        ensures
            b == (self@.role == RoleEnum::Delegation),
    {
        self.role == RoleEnum::Delegation
    }
}

impl PartialEq for Role {
    /// Two roles are equal when their names are, whatever their kinds.
    fn eq(&self, other: &Self) -> (same: bool) {
        str_eq(self.name.as_str(), other.name.as_str())
    }
}

impl PartialEqSpecImpl for Role {
    open spec fn obeys_eq_spec() -> bool {
        true
    }

    open spec fn eq_spec(&self, other: &Self) -> bool {
        self@.name == other@.name
    }
}

impl PartialOrd for Role {
    /// Roles are ordered as their names are.
    fn partial_cmp(&self, other: &Self) -> (o: Option<Ordering>) {
        if str_eq(self.name.as_str(), other.name.as_str()) {
            Some(Ordering::Equal)
        } else if str_less(self.name.as_str(), other.name.as_str()) {
            Some(Ordering::Less)
        } else {
            Some(Ordering::Greater)
        }
    }
}

impl PartialOrdSpecImpl for Role {
    open spec fn obeys_partial_cmp_spec() -> bool {
        true
    }

    open spec fn partial_cmp_spec(&self, other: &Self) -> Option<Ordering> {
        if self@.name == other@.name {
            Some(Ordering::Equal)
        } else if text_less(self@.name, other@.name) {
            Some(Ordering::Less)
        } else {
            Some(Ordering::Greater)
        }
    }
}

/// The names of the six fixed roles are the reserved names, and no other name
/// is reserved.
pub proof fn lemma_reserved_names(name: Seq<char>)
    ensures
        is_reserved_name(name) <==> exists|role: RoleEnum|
            is_fixed_role(role) && #[trigger] role_name(role) == name,
{
    if is_reserved_name(name) {
        if name == "root"@ {
            assert(role_name(RoleEnum::Root) == name);
        } else if name == "snapshot"@ {
            assert(role_name(RoleEnum::Snapshot) == name);
        } else if name == "targets"@ {
            assert(role_name(RoleEnum::Targets) == name);
        } else if name == "timestamp"@ {
            assert(role_name(RoleEnum::Timestamp) == name);
        } else if name == "offlinesnapshot"@ {
            assert(role_name(RoleEnum::OfflineSnapshot) == name);
        } else {
            assert(role_name(RoleEnum::OfflineUpdates) == name);
        }
    }
}

} // verus!
