use rbot_discord::database::{
    AirtableRow, DatabaseUpdate, Event, Instance, Invite, Message, MessageEdit, Project, Storage,
    StorageDataType, User,
};
use rbot_discord::parse::DiscordIds;
use rbot_discord::database::Role;
use std::time::SystemTime;

fn user(id: i32, discordid: i64, role: &str) -> User {
    User { id, discordid, role: role.to_string() }
}

fn message(id: i64, author: i64) -> Message {
    Message { id, author, content: format!("m{}", id), channel: 1, date: None }
}

fn storage(id: i32, datatype: i64, dataid: Option<i64>, data: &str) -> Storage {
    Storage { id, datatype, dataid, data: data.to_string(), date: None }
}

fn project(id: i32, message_id: i64, channel_id: i64) -> Project {
    Project {
        id,
        message_id,
        channel_id,
        codex: String::new(),
        client: String::new(),
        lead: String::new(),
        deadline: String::new(),
        description: String::new(),
        contexte: String::new(),
        created_at: SystemTime::UNIX_EPOCH,
        pinned_message_id: None,
    }
}

#[test]
fn new_tables_are_empty() {
    let db = Instance::new();
    assert!(db.users.is_empty() && db.messages.is_empty() && db.storage.is_empty());
    assert!(db.projects.is_empty() && db.invites.is_empty() && db.airtable.is_empty());
    assert!(db.messages_edits.is_empty() && db.events.is_empty());
}

#[test]
fn users_are_found_by_identifier() {
    let mut db = Instance::new();
    db.user_add(user(1, 10, "Guest"));
    db.user_add(user(2, 20, "User"));
    db.user_add(user(3, 20, "Admin"));
    db.user_add(user(4, -1, "Moderator"));
    assert_eq!(db.user_search(20).map(|u| u.id), Some(2));
    assert_eq!(db.user_search_mut(20), Some(1));
    assert_eq!(db.user_search(30).map(|u| u.id), None);
    assert_eq!(db.user_search(u64::MAX).map(|u| u.id), Some(4));
}

#[test]
fn role_update_changes_the_first_match_only() {
    let mut db = Instance::new();
    db.user_add(user(1, 10, "Guest"));
    db.user_add(user(2, 20, "User"));
    db.user_add(user(3, 20, "Admin"));
    assert_eq!(db.user_role_update(20, Role::Moderator), "Updated 20 to Moderator");
    assert_eq!(db.users[1].role, "Moderator");
    assert_eq!(db.users[2].role, "Admin");
    assert_eq!(db.users[0].role, "Guest");
    assert_eq!(db.user_role_update(99, Role::Admin), "User not found");
    db.user_add(user(4, i64::MIN, "Guest"));
    assert_eq!(
        db.user_role_update(1 << 63, Role::User),
        "Updated -9223372036854775808 to User"
    );
}

#[test]
fn messages_are_deleted_by_identifier() {
    let mut db = Instance::new();
    for id in [5, 6, 7, 8, 6] {
        db.message_add(message(id, 1));
    }
    let gone = db.mesage_delete(vec![6, 8, 100]);
    assert_eq!(gone.iter().map(|m| m.id).collect::<Vec<_>>(), vec![6, 8, 6]);
    assert_eq!(db.messages.iter().map(|m| m.id).collect::<Vec<_>>(), vec![5, 7]);
    assert!(db.mesage_delete(vec![]).is_empty());
    assert_eq!(db.messages.len(), 2);
}

#[test]
fn storage_is_found_updated_and_deleted() {
    let mut db = Instance::new();
    db.storage_add(storage(1, 1, Some(11), "a,b"));
    db.storage_add(storage(2, 0, None, "<@1>"));
    db.storage_add(storage(3, 0, None, "<@2>"));
    db.storage_add(storage(4, 2, Some(42), ""));
    assert_eq!(db.find_storage_type(StorageDataType::Mom).map(|s| s.id), Some(2));
    assert_eq!(db.find_storage_type(StorageDataType::ProjectBottomMessage).map(|s| s.id), Some(1));
    assert_eq!(i64::from(StorageDataType::Mom), 0);
    assert_eq!(i64::from(StorageDataType::ProjectBottomMessage), 1);
    db.storage_update(storage(2, 0, None, "<@9>"));
    assert_eq!(db.storage.iter().map(|s| s.id).collect::<Vec<_>>(), vec![1, 3, 4, 2]);
    assert_eq!(db.storage[3].data, "<@9>");
    assert!(db.is_user_blocked(42));
    assert!(!db.is_user_blocked(11));
    assert!(!db.is_user_blocked(43));
    let gone = db.storage_delete(vec![4, 1]);
    assert_eq!(gone.iter().map(|s| s.id).collect::<Vec<_>>(), vec![1, 4]);
    assert_eq!(db.storage.iter().map(|s| s.id).collect::<Vec<_>>(), vec![3, 2]);
    assert!(!db.is_user_blocked(42));
    let mut empty = Instance::new();
    assert!(empty.find_storage_type(StorageDataType::Mom).is_none());
    assert!(empty.storage_delete(vec![1]).is_empty());
}

#[test]
fn projects_are_searched_and_deleted() {
    let mut db = Instance::new();
    db.project_add(project(1, 100, 200));
    db.project_add(project(2, 101, 201));
    db.project_add(project(3, 201, 100));
    assert_eq!(db.projects_search(100, DiscordIds::Message).map(|(i, p)| (i, p.id)), Some((0, 1)));
    assert_eq!(db.projects_search(100, DiscordIds::Channel).map(|(i, p)| (i, p.id)), Some((2, 3)));
    assert_eq!(db.projects_search(201, DiscordIds::Channel).map(|(i, p)| (i, p.id)), Some((1, 2)));
    assert!(db.projects_search(100, DiscordIds::User).is_none());
    assert!(db.projects_search(100, DiscordIds::Role).is_none());
    assert!(db.projects_search(7, DiscordIds::Channel).is_none());
    let (answer, gone) = db.projects_delete(201);
    assert_eq!(answer, ":ok:");
    assert_eq!(gone.map(|p| p.id), Some(2));
    assert_eq!(db.projects.iter().map(|p| p.id).collect::<Vec<_>>(), vec![1, 3]);
    let (answer, gone) = db.projects_delete(201);
    assert_eq!(answer, "Channel wasn't found");
    assert!(gone.is_none());
    assert_eq!(db.projects.len(), 2);
}

#[test]
fn tickets_are_added_once() {
    let mut db = Instance::new();
    let row = |id: i32, aid: &str| AirtableRow {
        id,
        aid: aid.to_string(),
        content: String::new(),
        created_time: None,
    };
    assert!(db.airtable_row_add(row(1, "recA")));
    assert!(db.airtable_row_add(row(2, "recB")));
    assert!(!db.airtable_row_add(row(3, "recA")));
    assert_eq!(db.airtable.len(), 2);
    assert_eq!(db.airtable_row_search("recB").map(|r| r.id), Some(2));
    assert!(db.airtable_row_search("recC").is_none());
}

#[test]
fn invitations_are_updated_or_added() {
    let mut db = Instance::new();
    let (diff, added) = db.invite_update("abcdefgh".to_string(), None, Some(5), None, 1);
    assert_eq!(diff, 0);
    assert_eq!((added.id, added.used_count, added.actionchannel, added.actionrole), (1, 0, Some(5), None));
    let (diff, now) = db.invite_update("abcdefgh".to_string(), Some(3), None, Some(9), 2);
    assert_eq!(diff, 3);
    assert_eq!((now.id, now.used_count, now.actionchannel, now.actionrole), (1, 3, Some(5), Some(9)));
    let (diff, now) = db.invite_update("abcdefgh".to_string(), None, None, None, 3);
    assert_eq!(diff, 0);
    assert_eq!(now.used_count, 3);
    let (diff, _) = db.invite_update("abcdefgh".to_string(), Some(1), None, None, 3);
    assert_eq!(diff, -2);
    assert_eq!(db.invites.len(), 1);
    assert_eq!(db.invites[0].used_count, 1);
    assert_eq!(db.invite_search("abcdefgh"), Some(0));
    assert_eq!(db.invite_search("zzzzzzzz"), None);
    let (diff, other) = db.invite_update("zzzzzzzz".to_string(), Some(4), None, None, 7);
    assert_eq!((diff, other.id, other.used_count), (0, 7, 4));
    assert_eq!(db.invites.len(), 2);
    db.invites.push(Invite { id: 9, code: "low".to_string(), actionrole: None, actionchannel: None, used_count: i32::MIN });
    let (diff, _) = db.invite_update("low".to_string(), Some(i32::MAX), None, None, 0);
    assert_eq!(diff, i32::MAX);
}

#[test]
fn reminders_are_deleted_by_identifier() {
    let mut db = Instance::new();
    for id in [1, 2, 3] {
        db.event_add(Event { id, author: 1, content: String::new(), channel: 2, trigger_date: 0 });
    }
    db.event_delete(2);
    assert_eq!(db.events.iter().map(|e| e.id).collect::<Vec<_>>(), vec![1, 3]);
    db.event_delete(9);
    assert_eq!(db.events.len(), 2);
}

#[test]
fn new_messages_and_edits_are_told_apart() {
    let mut db = Instance::new();
    db.user_add(user(1, 10, "Guest"));
    db.message_add(message(5, 10));
    db.message_edit_add(MessageEdit {
        id: 1,
        author: 10,
        content: String::new(),
        channel: 1,
        date: None,
        parrent_message_id: 5,
    });
    assert_eq!(db.database_update(&message(5, 10), true), DatabaseUpdate::AddEdit);
    assert_eq!(
        db.database_update(&message(5, 10), false),
        DatabaseUpdate::AddMessage { new_user: false }
    );
    assert_eq!(
        db.database_update(&message(6, 10), true),
        DatabaseUpdate::AddMessage { new_user: false }
    );
    assert_eq!(
        db.database_update(&message(6, 11), true),
        DatabaseUpdate::AddMessage { new_user: true }
    );
    assert_eq!(db.messages_edits.len(), 1);
}
