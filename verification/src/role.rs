//! The totally ordered authorization tiers.

use vstd::prelude::*;
use vstd::std_specs::cmp::PartialOrdSpecImpl;
use core::cmp::Ordering;
use crate::text::str_eq;

verus! {

/// Authorization tier of a caller, or the tier that a command asks for.
#[derive(Copy, Clone, Debug, PartialEq, Eq, Structural)]
pub enum Role {
    Guest,
    User,
    Moderator,
    Admin,
}

/// The tier that a stored name stands for; names are matched exactly.
pub open spec fn role_named(name: Seq<char>) -> Option<Role> {
    if name == "Guest"@ {
        Some(Role::Guest)
    } else if name == "User"@ {
        Some(Role::User)
    } else if name == "Moderator"@ {
        Some(Role::Moderator)
    } else if name == "Admin"@ {
        Some(Role::Admin)
    } else {
        None
    }
}

impl Role {
    /// Position of the tier in the order `Guest < User < Moderator < Admin`.
    pub open spec fn rank(self) -> nat {
        match self {
            Role::Guest => 0,
            Role::User => 1,
            Role::Moderator => 2,
            Role::Admin => 3,
        }
    }

    /// The name under which the tier is stored and shown.
    pub open spec fn name(self) -> Seq<char> {
        match self {
            Role::Guest => "Guest"@,
            Role::User => "User"@,
            Role::Moderator => "Moderator"@,
            Role::Admin => "Admin"@,
        }
    }

    /// Position of the tier, as a number.
    pub fn level(self) -> (r: u8)
        ensures
            r == self.rank(),
    {
        match self {
            Role::Guest => 0,
            Role::User => 1,
            Role::Moderator => 2,
            Role::Admin => 3,
        }
    }

    /// Whether this tier is `required` or a higher one.
    pub fn at_least(self, required: Role) -> (r: bool)
        ensures
            r == (self.rank() >= required.rank()),
    {
        self.level() >= required.level()
    }

    /// The tier's name as text.
    pub fn as_str(self) -> (r: &'static str)
        ensures
            r@ == self.name(),
    {
        match self {
            Role::Guest => "Guest",
            Role::User => "User",
            Role::Moderator => "Moderator",
            Role::Admin => "Admin",
        }
    }

    /// The tier's name as an owned string.
    pub fn to_string(self) -> (r: String)
        ensures
            r@ == self.name(),
    {
        self.as_str().to_owned()
    }

    /// Reads a tier from its name.
    pub fn from_str(name: &str) -> (r: Option<Role>)
        ensures
            r == role_named(name@),
    {
        if str_eq(name, "Guest") {
            Some(Role::Guest)
        } else if str_eq(name, "User") {
            Some(Role::User)
        } else if str_eq(name, "Moderator") {
            Some(Role::Moderator)
        } else if str_eq(name, "Admin") {
            Some(Role::Admin)
        } else {
            None
        }
    }
}

impl PartialOrd for Role {
    fn partial_cmp(&self, other: &Role) -> (r: Option<Ordering>) {
        let a = self.level();
        let b = other.level();
        if a < b {
            Some(Ordering::Less)
        } else if a == b {
            Some(Ordering::Equal)
        } else {
            Some(Ordering::Greater)
        }
    }
}

impl PartialOrdSpecImpl for Role {
    open spec fn obeys_partial_cmp_spec() -> bool {
        true
    }

    open spec fn partial_cmp_spec(&self, other: &Role) -> Option<Ordering> {
        if self.rank() < other.rank() {
            Some(Ordering::Less)
        } else if self.rank() == other.rank() {
            Some(Ordering::Equal)
        } else {
            Some(Ordering::Greater)
        }
    }
}

/// The four tiers are strictly ordered: `Guest < User < Moderator < Admin`.
pub proof fn lemma_role_order()
    ensures
        Role::Guest.rank() < Role::User.rank(),
        Role::User.rank() < Role::Moderator.rank(),
        Role::Moderator.rank() < Role::Admin.rank(),
{
}

/// The order of tiers is total: of two tiers one is at least the other, and two tiers
/// of equal rank are the same tier.
pub proof fn lemma_role_order_total(a: Role, b: Role)
    ensures
        a.rank() >= b.rank() || b.rank() >= a.rank(),
        a.rank() == b.rank() <==> a == b,
{
}

/// Reading back the name of a tier gives that tier.
pub proof fn lemma_role_name_round_trip(role: Role)
    ensures
        role_named(role.name()) == Some(role),
{
    reveal_strlit("Guest");
    reveal_strlit("User");
    reveal_strlit("Moderator");
    reveal_strlit("Admin");
    assert("Guest"@.len() == 5);
    assert("User"@.len() == 4);
    assert("Moderator"@.len() == 9);
    assert("Admin"@.len() == 5);
    assert("Guest"@[0] == 'G');
    assert("Admin"@[0] == 'A');
}

} // verus!
