use rbot_discord::database::{Instance, User};
use rbot_discord::permissions::{
    authorize, is_user_allowed, needs_membership, reconcile, Authorization,
};
use rbot_discord::role::Role;

#[test]
fn roles_are_ordered() {
    assert!(Role::Guest < Role::User);
    assert!(Role::User < Role::Moderator);
    assert!(Role::Moderator < Role::Admin);
    assert!(Role::Admin >= Role::Admin);
    assert!(Role::Guest <= Role::User);
    assert!(Role::Admin.at_least(Role::Guest));
    assert!(!Role::User.at_least(Role::Admin));
    assert_eq!(Role::Guest.level(), 0);
    assert_eq!(Role::Admin.level(), 3);
}

#[test]
fn role_names_round_trip() {
    for role in [Role::Guest, Role::User, Role::Moderator, Role::Admin] {
        assert_eq!(Role::from_str(&role.to_string()), Some(role));
    }
    assert_eq!(Role::Moderator.to_string(), "Moderator");
    assert_eq!(Role::from_str("admin"), None);
    assert_eq!(Role::from_str(""), None);
}

#[test]
fn unknown_stored_role_is_refused_as_guest() {
    assert_eq!(
        is_user_allowed("Wizard", Some(true), Role::Guest),
        Authorization { allowed: false, role: Role::Guest, update: None }
    );
}

#[test]
fn low_tiers_follow_membership() {
    assert_eq!(
        is_user_allowed("Guest", Some(true), Role::User),
        Authorization { allowed: true, role: Role::User, update: Some(Role::User) }
    );
    assert_eq!(
        is_user_allowed("User", Some(false), Role::User),
        Authorization { allowed: false, role: Role::Guest, update: Some(Role::Guest) }
    );
    assert_eq!(
        is_user_allowed("User", Some(true), Role::User),
        Authorization { allowed: true, role: Role::User, update: None }
    );
    assert_eq!(
        is_user_allowed("User", None, Role::Admin),
        Authorization { allowed: false, role: Role::User, update: None }
    );
}

#[test]
fn high_tiers_are_never_corrected() {
    assert_eq!(
        is_user_allowed("Admin", Some(false), Role::Admin),
        Authorization { allowed: true, role: Role::Admin, update: None }
    );
    assert_eq!(
        is_user_allowed("Moderator", Some(false), Role::Admin),
        Authorization { allowed: false, role: Role::Moderator, update: None }
    );
    assert_eq!(reconcile(Role::Admin, false), None);
    assert_eq!(reconcile(Role::Guest, true), Some(Role::User));
    assert!(needs_membership("Guest"));
    assert!(needs_membership("User"));
    assert!(!needs_membership("Moderator"));
    assert!(!needs_membership("Admin"));
    assert!(!needs_membership("nobody"));
}

#[test]
fn stored_callers_are_authorized_and_corrected() {
    let mut db = Instance::new();
    db.user_add(User { id: 1, discordid: 10, role: "Guest".to_string() });
    db.user_add(User { id: 2, discordid: 20, role: "Admin".to_string() });
    db.user_add(User { id: 3, discordid: 30, role: "Wizard".to_string() });
    assert_eq!(
        authorize(&mut db, 10, Some(true), Role::User),
        Authorization { allowed: true, role: Role::User, update: Some(Role::User) }
    );
    assert_eq!(db.users[0].role, "User");
    assert_eq!(
        authorize(&mut db, 10, None, Role::Moderator),
        Authorization { allowed: false, role: Role::User, update: None }
    );
    assert_eq!(
        authorize(&mut db, 20, Some(false), Role::Admin),
        Authorization { allowed: true, role: Role::Admin, update: None }
    );
    assert_eq!(db.users[1].role, "Admin");
    let refused = Authorization { allowed: false, role: Role::Guest, update: None };
    assert_eq!(authorize(&mut db, 30, Some(true), Role::Guest), refused);
    assert_eq!(authorize(&mut db, 40, Some(true), Role::Guest), refused);
    assert_eq!(db.users.len(), 3);
    assert_eq!(db.users[2].role, "Wizard");
}
