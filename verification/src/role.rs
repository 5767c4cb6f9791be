//! The closed role hierarchy: four tiers in one total order.

use vstd::prelude::*;

verus! {

/// A role, one of four ordered tiers.  Every authorization comparison in
/// the crate goes through [`Role::tier`], so the ordering below is the one
/// place the hierarchy is defined.
#[derive(Debug, Clone, Copy, PartialEq, Eq, Structural)]
pub enum Role {
    Subscriber,
    Contributor,
    Editor,
    Administrator,
}

/// The ordinal rank of a role: Subscriber < Contributor < Editor <
/// Administrator.
pub open spec fn spec_tier(r: Role) -> int {
    match r {
        Role::Subscriber => 0,
        Role::Contributor => 1,
        Role::Editor => 2,
        Role::Administrator => 3,
    }
}

/// Whether a role meets a required minimum tier.
pub open spec fn spec_satisfies(r: Role, minimum: Role) -> bool {
    spec_tier(r) >= spec_tier(minimum)
}

/// The group name under which a role is stored.
pub open spec fn spec_group_name(r: Role) -> Seq<char> {
    match r {
        Role::Subscriber => "subscriber"@,
        Role::Contributor => "contributor"@,
        Role::Editor => "editor"@,
        Role::Administrator => "administrator"@,
    }
}

/// The role a stored group name stands for, if any.
pub open spec fn spec_role_of(s: Seq<char>) -> Option<Role> {
    if s == spec_group_name(Role::Subscriber) {
        Some(Role::Subscriber)
    } else if s == spec_group_name(Role::Contributor) {
        Some(Role::Contributor)
    } else if s == spec_group_name(Role::Editor) {
        Some(Role::Editor)
    } else if s == spec_group_name(Role::Administrator) {
        Some(Role::Administrator)
    } else {
        None
    }
}

impl Role {
    /// The ordinal rank used for every `>=` comparison.
    pub fn tier(self) -> (t: u32)
        ensures
            t as int == spec_tier(self),
    {
        match self {
            Role::Subscriber => 0,
            Role::Contributor => 1,
            Role::Editor => 2,
            Role::Administrator => 3,
        }
    }

    /// Whether this role meets the required minimum tier.
    pub fn satisfies(self, minimum: Role) -> (b: bool)
        ensures
            b == spec_satisfies(self, minimum),
    {
        self.tier() >= minimum.tier()
    }

    /// Parses a stored group name into a role; any other string is not a
    /// role.
    pub fn from_group(s: &String) -> (r: Option<Role>)
        ensures
            r == spec_role_of(s@),
            match r {
                Some(role) => s@ == spec_group_name(role),
                None => forall|role: Role| s@ != spec_group_name(role),
            },
    {
        if *s == "subscriber".to_owned() {
            Some(Role::Subscriber)
        } else if *s == "contributor".to_owned() {
            Some(Role::Contributor)
        } else if *s == "editor".to_owned() {
            Some(Role::Editor)
        } else if *s == "administrator".to_owned() {
            Some(Role::Administrator)
        } else {
            None
        }
    }

    /// The group name under which this role is stored.
    pub fn group_name(self) -> (s: String)
        ensures
            s@ == spec_group_name(self),
    {
        match self {
            Role::Subscriber => "subscriber".to_owned(),
            Role::Contributor => "contributor".to_owned(),
            Role::Editor => "editor".to_owned(),
            Role::Administrator => "administrator".to_owned(),
        }
    }
}

} // verus!
