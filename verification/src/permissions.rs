//! The permission gate: resolving a caller's tier and comparing it with the required one.

use vstd::prelude::*;
use crate::database::{kept, user_position, Instance, Table};
use crate::role::{role_named, Role};
use crate::text::reinterpret_signed;

verus! {

/// The outcome of the permission gate.
#[derive(Copy, Clone, Debug, PartialEq, Eq, Structural)]
pub struct Authorization {
    /// Whether the caller may run the command.
    pub allowed: bool,
    /// The caller's tier after reconciliation.
    pub role: Role,
    /// The tier to store for the caller, where reconciliation changed it.
    pub update: Option<Role>,
}

/// Whether live group membership is consulted for a caller stored under `stored`:
/// only for the two lowest tiers.
pub open spec fn consults_membership(stored: Seq<char>) -> bool {
    match role_named(stored) {
        Some(role) => role.rank() <= Role::User.rank(),
        None => false,
    }
}

/// The tier that live membership puts a caller of one of the two lowest tiers in,
/// where it differs from the stored one.
pub open spec fn corrected_role(role: Role, has_user_role: bool) -> Option<Role> {
    if role.rank() > Role::User.rank() {
        None
    } else if has_user_role && role != Role::User {
        Some(Role::User)
    } else if !has_user_role && role != Role::Guest {
        Some(Role::Guest)
    } else {
        None
    }
}

/// The permission gate's outcome for a caller stored under the name `stored`, with what is known
/// of the caller's live membership, against the tier `expected`.
///
/// A stored name that names no tier refuses the caller as a guest. Membership, where
/// known, corrects the two lowest tiers only.
pub open spec fn authorization_of(
    stored: Seq<char>,
    membership: Option<bool>,
    expected: Role,
) -> Authorization {
    match role_named(stored) {
        None => Authorization { allowed: false, role: Role::Guest, update: None },
        Some(role) => {
            let update = match membership {
                Some(has_user_role) => corrected_role(role, has_user_role),
                None => None,
            };
            let current = match update {
                Some(new_role) => new_role,
                None => role,
            };
            Authorization {
                allowed: current.rank() >= expected.rank(),
                role: current,
                update,
            }
        },
    }
}

/// Whether the caller's live membership has to be looked up before the permission gate decides.
pub fn needs_membership(stored: &str) -> (r: bool)
    ensures
        r == consults_membership(stored@),
{
    match Role::from_str(stored) {
        Some(role) => !role.at_least(Role::Moderator),
        None => false,
    }
}

/// Corrects one of the two lowest tiers from live membership.
pub fn reconcile(role: Role, has_user_role: bool) -> (r: Option<Role>)
    ensures
        r == corrected_role(role, has_user_role),
{
    if role.at_least(Role::Moderator) {
        None
    } else if has_user_role && role != Role::User {
        Some(Role::User)
    } else if !has_user_role && role != Role::Guest {
        Some(Role::Guest)
    } else {
        None
    }
}

/// Decides whether a caller may run a command that asks for `expected`.
///
/// `stored` is the name of the tier kept for the caller; `membership` says whether the
/// caller holds the member role in the group, where that could be looked up.
pub fn is_user_allowed(stored: &str, membership: Option<bool>, expected: Role) -> (r:
    Authorization)
    ensures
        r == authorization_of(stored@, membership, expected),
{
    let role = match Role::from_str(stored) {
        None => {
            return Authorization { allowed: false, role: Role::Guest, update: None };
        },
        Some(role) => role,
    };
    let update = match membership {
        Some(has_user_role) => reconcile(role, has_user_role),
        None => None,
    };
    let current = match update {
        Some(new_role) => new_role,
        None => role,
    };
    Authorization { allowed: current.at_least(expected), role: current, update }
}

/// The name of the tier stored for a caller; a caller who is not stored has none.
pub open spec fn stored_role(db: Instance, caller: u64) -> Seq<char> {
    match user_position(db.users@, reinterpret_signed(caller)) {
        Some(i) => db.users@[i].role@,
        None => Seq::empty(),
    }
}

/// Decides whether a stored caller may run a command that asks for `required`, and
/// stores the caller's tier where live membership corrected it. Nothing else changes;
/// a caller who is not stored is refused as a guest.
pub fn authorize(db: &mut Instance, caller: u64, membership: Option<bool>, required: Role) -> (r:
    Authorization)
    ensures
        r == authorization_of(stored_role(*old(db), caller), membership, required),
        kept(*old(db), *final(db), Table::Users),
        r.update is None ==> final(db).users@ == old(db).users@,
        r.update is Some ==> {
            let i = user_position(old(db).users@, reinterpret_signed(caller))->0;
            &&& user_position(old(db).users@, reinterpret_signed(caller)) is Some
            &&& final(db).users@.len() == old(db).users@.len()
            &&& final(db).users@[i].role@ == r.role.name()
            &&& final(db).users@[i].id == old(db).users@[i].id
            &&& final(db).users@[i].discordid == old(db).users@[i].discordid
            &&& forall|j: int|
                0 <= j < old(db).users@.len() && j != i ==> final(db).users@[j] == old(
                    db,
                ).users@[j]
        },
{
    let outcome = match db.user_search(caller) {
        Some(user) => is_user_allowed(user.role.as_str(), membership, required),
        None => {
            proof {
                reveal_strlit("Guest");
                reveal_strlit("User");
                reveal_strlit("Moderator");
                reveal_strlit("Admin");
                assert("Guest"@.len() == 5 && "User"@.len() == 4);
                assert("Moderator"@.len() == 9 && "Admin"@.len() == 5);
                assert(role_named(Seq::<char>::empty()) is None);
            }
            Authorization { allowed: false, role: Role::Guest, update: None }
        },
    };
    if let Some(role) = outcome.update {
        db.user_role_update(caller, role);
    }
    outcome
}

/// The permission gate never moves a caller into or out of the two highest tiers: whatever the
/// live membership says, a moderator or admin keeps the stored tier, and a corrected
/// tier is a guest's or a user's.
pub proof fn lemma_high_tiers_untouched(stored: Seq<char>, membership: Option<bool>, expected: Role)
    ensures
        ({
            let a = authorization_of(stored, membership, expected);
            &&& role_named(stored) == Some(Role::Moderator) || role_named(stored) == Some(
                Role::Admin,
            ) ==> a.update is None && Some(a.role) == role_named(stored)
            &&& a.update is Some ==> a.update->0 == a.role && a.role.rank() <= Role::User.rank()
            &&& a.update is Some ==> Some(a.role) != role_named(stored)
        }),
{
}

/// The permission gate allows exactly the callers whose resolved tier is at least the required
/// one; in particular a user is refused what asks for an admin, and everyone is
/// allowed what asks for a guest once the stored name is a tier.
pub proof fn lemma_gate_compares_tiers(stored: Seq<char>, membership: Option<bool>, expected: Role)
    ensures
        ({
            let a = authorization_of(stored, membership, expected);
            &&& role_named(stored) is Some ==> (a.allowed <==> a.role.rank() >= expected.rank())
            &&& role_named(stored) is None ==> !a.allowed && a.role == Role::Guest
            &&& a.role == Role::User && expected == Role::Admin ==> !a.allowed
            &&& role_named(stored) is Some && expected == Role::Guest ==> a.allowed
        }),
{
}

} // verus!
