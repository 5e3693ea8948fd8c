//! The rows that the bot keeps, and the tables that hold them in memory.

use std::time::SystemTime;
use vstd::prelude::*;
use vstd::std_specs::convert::FromSpecImpl;
use crate::parse::DiscordIds;
pub use crate::role::Role;
use crate::text::{
    push_signed_decimal, push_str, reinterpret_signed, signed_decimal_digits, str_eq, string_of,
    to_signed,
};

verus! {

/// A point in time as the system clock gives it. The library only carries it.
#[verifier::external_type_specification]
#[verifier::external_body]
pub struct ExSystemTime(SystemTime);

/// A known user and the name of the tier stored for them.
#[derive(Debug)]
pub struct User {
    pub id: i32,
    pub discordid: i64,
    pub role: String,
}

/// A user to store.
pub struct NewUser<'a> {
    pub discordid: i64,
    pub role: &'a str,
}

/// A message that was seen.
#[derive(Debug)]
pub struct Message {
    pub id: i64,
    pub author: i64,
    pub content: String,
    pub channel: i64,
    pub date: Option<SystemTime>,
}

/// A later version of a message.
#[derive(Debug)]
pub struct MessageEdit {
    pub id: i32,
    pub author: i64,
    pub content: String,
    pub channel: i64,
    pub date: Option<SystemTime>,
    pub parrent_message_id: i64,
}

/// A later version of a message, to store.
#[derive(Debug)]
pub struct NewMessageEdit {
    pub id: Option<i32>,
    pub author: i64,
    pub content: String,
    pub channel: i64,
    pub date: Option<SystemTime>,
    pub parrent_message_id: i64,
}

/// A project with its channel and its announcement.
#[derive(Debug)]
pub struct Project {
    pub id: i32,
    pub message_id: i64,
    pub channel_id: i64,
    pub codex: String,
    pub client: String,
    pub lead: String,
    pub deadline: String,
    pub description: String,
    pub contexte: String,
    pub created_at: SystemTime,
    pub pinned_message_id: Option<i64>,
}

/// A project to store.
#[derive(Debug)]
pub struct NewProject<'a> {
    pub message_id: i64,
    pub channel_id: i64,
    pub codex: Option<&'a str>,
    pub client: Option<&'a str>,
    pub lead: Option<&'a str>,
    pub deadline: Option<&'a str>,
    pub description: Option<&'a str>,
    pub contexte: Option<&'a str>,
    pub pinned_message_id: Option<i64>,
}

/// An invitation and what joining through it grants.
#[derive(Debug)]
pub struct Invite {
    pub id: i32,
    pub code: String,
    pub actionrole: Option<i64>,
    pub actionchannel: Option<i64>,
    pub used_count: i32,
}

/// An invitation to store.
#[derive(Debug)]
pub struct NewInvite {
    pub code: String,
    pub actionrole: Option<i64>,
    pub actionchannel: Option<i64>,
    pub used_count: i32,
}

/// A stored value of some kind.
#[derive(Debug)]
pub struct Storage {
    pub id: i32,
    pub datatype: i64,
    pub dataid: Option<i64>,
    pub data: String,
    pub date: Option<SystemTime>,
}

/// A value to store.
#[derive(Debug)]
pub struct NewStorage<'a> {
    pub datatype: i64,
    pub dataid: Option<i64>,
    pub data: &'a str,
    pub date: Option<SystemTime>,
}

/// A ticket of the help desk.
#[derive(Debug)]
pub struct AirtableRow {
    pub id: i32,
    pub aid: String,
    pub content: String,
    pub created_time: Option<SystemTime>,
}

/// A reminder and the moment it is due, in seconds since the epoch.
#[derive(Debug)]
pub struct Event {
    pub id: i32,
    pub author: i64,
    pub content: String,
    pub channel: i64,
    pub trigger_date: i64,
}

/// The kinds of stored values.
#[derive(Copy, Clone, Debug, PartialEq, Eq, Structural)]
pub enum StorageDataType {
    Mom,
    ProjectBottomMessage,
    Blocked,
}

impl StorageDataType {
    /// The number under which the kind is stored.
    pub open spec fn code(self) -> i64 {
        match self {
            StorageDataType::Mom => 0,
            StorageDataType::ProjectBottomMessage => 1,
            StorageDataType::Blocked => 2,
        }
    }
}

impl From<StorageDataType> for i64 {
    fn from(id: StorageDataType) -> (r: i64) {
        match id {
            StorageDataType::Mom => 0,
            StorageDataType::ProjectBottomMessage => 1,
            StorageDataType::Blocked => 2,
        }
    }
}

impl FromSpecImpl<StorageDataType> for i64 {
    open spec fn obeys_from_spec() -> bool {
        true
    }

    open spec fn from_spec(id: StorageDataType) -> i64 {
        id.code()
    }
}

/// The tables, as the bot holds them in memory.
pub struct Instance {
    pub users: Vec<User>,
    pub messages: Vec<Message>,
    pub airtable: Vec<AirtableRow>,
    pub projects: Vec<Project>,
    pub invites: Vec<Invite>,
    pub storage: Vec<Storage>,
    pub messages_edits: Vec<MessageEdit>,
    pub events: Vec<Event>,
}

/// The tables by name.
pub enum Table {
    Users,
    Messages,
    Airtable,
    Projects,
    Invites,
    Storage,
    MessagesEdits,
    Events,
}

/// Whether every table but `except` holds the same rows in `after` as in `before`.
pub open spec fn kept(before: Instance, after: Instance, except: Table) -> bool {
    &&& except is Users || after.users == before.users
    &&& except is Messages || after.messages == before.messages
    &&& except is Airtable || after.airtable == before.airtable
    &&& except is Projects || after.projects == before.projects
    &&& except is Invites || after.invites == before.invites
    &&& except is Storage || after.storage == before.storage
    &&& except is MessagesEdits || after.messages_edits == before.messages_edits
    &&& except is Events || after.events == before.events
}

/// The position of the first user stored under `discordid`, if there is one.
pub open spec fn user_position(users: Seq<User>, discordid: i64) -> Option<int>
    decreases users.len(),
{
    if users.len() == 0 {
        None
    } else if users[0].discordid == discordid {
        Some(0)
    } else {
        match user_position(users.drop_first(), discordid) {
            Some(i) => Some(i + 1),
            None => None,
        }
    }
}

/// `user_position` finds the first user stored under the number, exactly when there is
/// one.
pub proof fn lemma_user_position(users: Seq<User>, discordid: i64)
    ensures
        match user_position(users, discordid) {
            Some(i) => 0 <= i < users.len() && users[i].discordid == discordid && forall|j: int|
                0 <= j < i ==> (#[trigger] users[j]).discordid != discordid,
            None => forall|j: int|
                0 <= j < users.len() ==> (#[trigger] users[j]).discordid != discordid,
        },
    decreases users.len(),
{
    if users.len() > 0 && users[0].discordid != discordid {
        let rest = users.drop_first();
        lemma_user_position(rest, discordid);
        match user_position(rest, discordid) {
            Some(i) => {
                assert forall|j: int| 0 <= j < i + 1 implies (#[trigger] users[j]).discordid
                    != discordid by {
                    if j > 0 {
                        assert(rest[j - 1] == users[j]);
                    }
                }
            },
            None => {
                assert forall|j: int| 0 <= j < users.len() implies (
                #[trigger] users[j]).discordid != discordid by {
                    if j > 0 {
                        assert(rest[j - 1] == users[j]);
                    }
                }
            },
        }
    }
}

/// A position at which a user is stored under the number, with none before it, is the
/// one that `user_position` finds.
pub proof fn lemma_user_position_is(users: Seq<User>, discordid: i64, at: int)
    requires
        0 <= at <= users.len(),
        forall|j: int| 0 <= j < at ==> (#[trigger] users[j]).discordid != discordid,
        at < users.len() ==> users[at].discordid == discordid,
    ensures
        user_position(users, discordid) == if at < users.len() {
            Some(at)
        } else {
            None
        },
{
    lemma_user_position(users, discordid);
}

/// The answer to an update of the tier of an unknown user.
pub open spec fn user_not_found_message() -> Seq<char> {
    "User not found"@
}

/// The answer to an update of a user's tier.
pub open spec fn role_updated_message(discordid: i64, role: Role) -> Seq<char> {
    "Updated "@ + signed_decimal_digits(discordid as int) + " to "@ + role.name()
}

/// A row that is told apart by a number.
pub trait Keyed {
    /// The number that tells the row apart.
    spec fn key(&self) -> i64;

    /// The number that tells the row apart.
    fn key_of(&self) -> (r: i64)
        ensures
            r == self.key(),
    ;
}

impl Keyed for Message {
    open spec fn key(&self) -> i64 {
        self.id
    }

    fn key_of(&self) -> (r: i64) {
        self.id
    }
}

impl Keyed for Storage {
    open spec fn key(&self) -> i64 {
        self.id as i64
    }

    fn key_of(&self) -> (r: i64) {
        self.id as i64
    }
}

impl Keyed for Event {
    open spec fn key(&self) -> i64 {
        self.id as i64
    }

    fn key_of(&self) -> (r: i64) {
        self.id as i64
    }
}

/// The rows whose number is among `ids`, in order.
pub open spec fn rows_among<T: Keyed>(rows: Seq<T>, ids: Seq<i64>) -> Seq<T>
    decreases rows.len(),
{
    if rows.len() == 0 {
        Seq::empty()
    } else if ids.contains(rows.last().key()) {
        rows_among(rows.drop_last(), ids).push(rows.last())
    } else {
        rows_among(rows.drop_last(), ids)
    }
}

/// The rows whose number is not among `ids`, in order.
pub open spec fn rows_beside<T: Keyed>(rows: Seq<T>, ids: Seq<i64>) -> Seq<T>
    decreases rows.len(),
{
    if rows.len() == 0 {
        Seq::empty()
    } else if ids.contains(rows.last().key()) {
        rows_beside(rows.drop_last(), ids)
    } else {
        rows_beside(rows.drop_last(), ids).push(rows.last())
    }
}

/// The numbers of `ids`, each as a 64-bit number.
pub open spec fn widened(ids: Seq<i32>) -> Seq<i64>
    decreases ids.len(),
{
    if ids.len() == 0 {
        Seq::empty()
    } else {
        widened(ids.drop_last()).push(ids.last() as i64)
    }
}

fn widen(ids: &Vec<i32>) -> (r: Vec<i64>)
    ensures
        r@ == widened(ids@),
{
    let mut out: Vec<i64> = Vec::new();
    let mut i: usize = 0;
    while i < ids.len()
        invariant
            i <= ids.len(),
            out@ == widened(ids@.take(i as int)),
        decreases ids.len() - i,
    {
        out.push(ids[i] as i64);
        i = i + 1;
        assert(ids@.take(i as int).drop_last() =~= ids@.take(i as int - 1));
    }
    assert(ids@.take(ids.len() as int) =~= ids@);
    out
}

/// Takes the rows whose number is among `ids` out of `table`, keeping the order of
/// those taken and of those left.
fn take_rows<T: Keyed>(table: &mut Vec<T>, ids: &Vec<i64>) -> (r: Vec<T>)
    ensures
        r@ == rows_among(old(table)@, ids@),
        final(table)@ == rows_beside(old(table)@, ids@),
{
    let mut rows: Vec<T> = Vec::new();
    std::mem::swap(&mut rows, table);
    let ghost all = rows@;
    let mut taken: Vec<T> = Vec::new();
    let mut left: Vec<T> = Vec::new();
    assert(rows_among(rows@, ids@) + taken@.reverse() =~= rows_among(all, ids@));
    assert(rows_beside(rows@, ids@) + left@.reverse() =~= rows_beside(all, ids@));
    while rows.len() > 0
        invariant
            rows_among(rows@, ids@) + taken@.reverse() == rows_among(all, ids@),
            rows_beside(rows@, ids@) + left@.reverse() == rows_beside(all, ids@),
        decreases rows.len(),
    {
        let ghost before = rows@;
        let ghost taken_before = taken@;
        let ghost left_before = left@;
        let row = rows.pop().unwrap();
        assert(rows@ == before.drop_last());
        assert(row == before.last());
        if contains_id(ids, row.key_of()) {
            taken.push(row);
            assert(taken@.reverse() =~= seq![row] + taken_before.reverse());
            assert(rows_among(rows@, ids@) + taken@.reverse() =~= rows_among(before, ids@)
                + taken_before.reverse());
        } else {
            left.push(row);
            assert(left@.reverse() =~= seq![row] + left_before.reverse());
            assert(rows_beside(rows@, ids@) + left@.reverse() =~= rows_beside(before, ids@)
                + left_before.reverse());
        }
    }
    assert(taken@.reverse() =~= rows_among(all, ids@));
    assert(left@.reverse() =~= rows_beside(all, ids@));
    *table = reversed(left);
    reversed(taken)
}

/// The rows of `rows` in the opposite order.
fn reversed<T>(rows: Vec<T>) -> (r: Vec<T>)
    ensures
        r@ == rows@.reverse(),
{
    let mut rows = rows;
    let ghost all = rows@;
    let mut out: Vec<T> = Vec::new();
    while rows.len() > 0
        invariant
            rows@.len() + out@.len() == all.len(),
            rows@ == all.take(rows@.len() as int),
            forall|j: int| 0 <= j < out@.len() ==> out@[j] == all[all.len() - 1 - j],
        decreases rows.len(),
    {
        let row = rows.pop().unwrap();
        out.push(row);
    }
    assert(out@ =~= all.reverse());
    out
}

fn contains_id(ids: &Vec<i64>, id: i64) -> (r: bool)
    ensures
        r == ids@.contains(id),
{
    let mut i: usize = 0;
    while i < ids.len()
        invariant
            i <= ids.len(),
            forall|j: int| 0 <= j < i ==> ids@[j] != id,
        decreases ids.len() - i,
    {
        if ids[i] == id {
            return true;
        }
        i = i + 1;
    }
    false
}

/// Whether the project at a position is the one looked for: by its announcement for a
/// message, by its channel for a channel, never for any other kind.
pub open spec fn project_matches(project: Project, id: i64, typeid: DiscordIds) -> bool {
    match typeid {
        DiscordIds::Message => project.message_id == id,
        DiscordIds::Channel => project.channel_id == id,
        _ => false,
    }
}

/// What a deletion of a project answers where no project has the channel.
pub open spec fn channel_not_found_message() -> Seq<char> {
    "Channel wasn't found"@
}

/// What becomes of an invitation that is updated: the count, the channel and the role
/// that are given replace the stored ones.
pub open spec fn invite_updated(
    invite: Invite,
    count: Option<i32>,
    actionchannel: Option<i64>,
    actionrole: Option<i64>,
) -> Invite {
    Invite {
        id: invite.id,
        code: invite.code,
        actionrole: if actionrole is Some {
            actionrole
        } else {
            invite.actionrole
        },
        actionchannel: if actionchannel is Some {
            actionchannel
        } else {
            invite.actionchannel
        },
        used_count: match count {
            Some(c) => c,
            None => invite.used_count,
        },
    }
}

/// By how much an update raises the count of uses of an invitation, held within the
/// range of its type.
pub open spec fn used_difference(invite: Invite, count: Option<i32>) -> i32 {
    match count {
        None => 0,
        Some(c) => {
            let d = c - invite.used_count;
            if d > i32::MAX {
                i32::MAX
            } else if d < i32::MIN {
                i32::MIN
            } else {
                d as i32
            }
        },
    }
}

/// Whether two invitations hold the same values.
pub open spec fn invite_same(a: Invite, b: Invite) -> bool {
    &&& a.id == b.id
    &&& a.code@ == b.code@
    &&& a.actionrole == b.actionrole
    &&& a.actionchannel == b.actionchannel
    &&& a.used_count == b.used_count
}

/// What a new message or an edit changes in the tables.
#[derive(Copy, Clone, Debug, PartialEq, Eq, Structural)]
pub enum DatabaseUpdate {
    /// The message is known: the edit is stored as a later version of it.
    AddEdit,
    /// The message is stored; its author is stored first, as a guest, where unknown.
    AddMessage { new_user: bool },
}

/// What a new message or an edit changes: an edit of a known message is stored as a
/// later version; anything else is stored as a message, after its author where the
/// author is unknown.
pub open spec fn database_update_of(db: Instance, message: Message, is_edit: bool) -> DatabaseUpdate {
    if is_edit && exists|i: int| 0 <= i < db.messages@.len() && db.messages@[i].id == message.id {
        DatabaseUpdate::AddEdit
    } else {
        DatabaseUpdate::AddMessage {
            new_user: !exists|i: int|
                0 <= i < db.users@.len() && db.users@[i].discordid == message.author,
        }
    }
}

/// What holds after the tier of the first user under an identifier was set: that user
/// has the new tier and nothing else changed, with an answer that says so; or no user is
/// stored under the identifier, nothing changed and the answer says so.
pub open spec fn role_updated(
    before: Instance,
    after: Instance,
    discord_id: u64,
    new_role: Role,
    answer: Seq<char>,
) -> bool {
    &&& kept(before, after, Table::Users)
    &&& match user_position(before.users@, reinterpret_signed(discord_id)) {
        None => after.users@ == before.users@ && answer == user_not_found_message(),
        Some(i) => {
            &&& after.users@.len() == before.users@.len()
            &&& forall|j: int|
                0 <= j < before.users@.len() && j != i ==> after.users@[j] == before.users@[j]
            &&& after.users@[i].id == before.users@[i].id
            &&& after.users@[i].discordid == before.users@[i].discordid
            &&& after.users@[i].role@ == new_role.name()
            &&& answer == role_updated_message(before.users@[i].discordid, new_role)
        },
    }
}

impl Instance {
    /// Tables without rows.
    pub fn new() -> (r: Instance)
        ensures
            r.users@.len() == 0,
            r.messages@.len() == 0,
            r.airtable@.len() == 0,
            r.projects@.len() == 0,
            r.invites@.len() == 0,
            r.storage@.len() == 0,
            r.messages_edits@.len() == 0,
            r.events@.len() == 0,
    {
        Instance {
            users: Vec::new(),
            messages: Vec::new(),
            airtable: Vec::new(),
            projects: Vec::new(),
            invites: Vec::new(),
            storage: Vec::new(),
            messages_edits: Vec::new(),
            events: Vec::new(),
        }
    }

    /// Adds a user as stored.
    pub fn user_add(&mut self, user: User)
        ensures
            final(self).users@ == old(self).users@.push(user),
            kept(*old(self), *final(self), Table::Users),
    {
        self.users.push(user);
    }

    /// Takes the messages with the given identifiers out of the table and hands them
    /// out; the other messages stay, in their order.
    pub fn mesage_delete(&mut self, messages_id: Vec<i64>) -> (r: Vec<Message>)
        ensures
            r@ == rows_among(old(self).messages@, messages_id@),
            final(self).messages@ == rows_beside(old(self).messages@, messages_id@),
            kept(*old(self), *final(self), Table::Messages),
    {
        take_rows(&mut self.messages, &messages_id)
    }

    /// Takes the stored values with the given identifiers out of the table and hands
    /// them out; the others stay, in their order.
    pub fn storage_delete(&mut self, storage_id: Vec<i32>) -> (r: Vec<Storage>)
        ensures
            r@ == rows_among(old(self).storage@, widened(storage_id@)),
            final(self).storage@ == rows_beside(old(self).storage@, widened(storage_id@)),
            kept(*old(self), *final(self), Table::Storage),
    {
        let ids = widen(&storage_id);
        take_rows(&mut self.storage, &ids)
    }

    /// Puts the stored value `updated` in the place of those that have its identifier:
    /// they leave the table and it comes last.
    pub fn storage_update(&mut self, updated: Storage)
        ensures
            final(self).storage@ == rows_beside(
                old(self).storage@,
                seq![updated.id as i64],
            ).push(updated),
            kept(*old(self), *final(self), Table::Storage),
    {
        let ids: Vec<i64> = vec![updated.id as i64];
        assert(ids@ =~= seq![updated.id as i64]);
        take_rows(&mut self.storage, &ids);
        self.storage.push(updated);
    }

    /// Takes the reminders with the given identifier out of the table.
    pub fn event_delete(&mut self, event_id: i32)
        ensures
            final(self).events@ == rows_beside(old(self).events@, seq![event_id as i64]),
            kept(*old(self), *final(self), Table::Events),
    {
        let ids: Vec<i64> = vec![event_id as i64];
        assert(ids@ =~= seq![event_id as i64]);
        take_rows(&mut self.events, &ids);
    }

    /// Adds a message as stored.
    pub fn message_add(&mut self, message: Message)
        ensures
            final(self).messages@ == old(self).messages@.push(message),
            kept(*old(self), *final(self), Table::Messages),
    {
        self.messages.push(message);
    }

    /// Adds a later version of a message as stored.
    pub fn message_edit_add(&mut self, edit: MessageEdit)
        ensures
            final(self).messages_edits@ == old(self).messages_edits@.push(edit),
            kept(*old(self), *final(self), Table::MessagesEdits),
    {
        self.messages_edits.push(edit);
    }

    /// Adds a project as stored.
    pub fn project_add(&mut self, project: Project)
        ensures
            final(self).projects@ == old(self).projects@.push(project),
            kept(*old(self), *final(self), Table::Projects),
    {
        self.projects.push(project);
    }

    /// Adds a value as stored.
    pub fn storage_add(&mut self, stored: Storage)
        ensures
            final(self).storage@ == old(self).storage@.push(stored),
            kept(*old(self), *final(self), Table::Storage),
    {
        self.storage.push(stored);
    }

    /// Adds a reminder as stored.
    pub fn event_add(&mut self, event: Event)
        ensures
            final(self).events@ == old(self).events@.push(event),
            kept(*old(self), *final(self), Table::Events),
    {
        self.events.push(event);
    }

    /// The first stored value of a kind.
    pub fn find_storage_type(&self, storage_type: StorageDataType) -> (r: Option<&Storage>)
        ensures
            match r {
                Some(found) => exists|i: int|
                    0 <= i < self.storage@.len() && found == &self.storage@[i] && found.datatype
                        == storage_type.code() && forall|j: int|
                        0 <= j < i ==> (#[trigger] self.storage@[j]).datatype
                            != storage_type.code(),
                None => forall|j: int|
                    0 <= j < self.storage@.len() ==> (#[trigger] self.storage@[j]).datatype
                        != storage_type.code(),
            },
    {
        let wanted: i64 = storage_type.into();
        let mut i: usize = 0;
        while i < self.storage.len()
            invariant
                i <= self.storage.len(),
                wanted == storage_type.code(),
                forall|j: int| 0 <= j < i ==> (#[trigger] self.storage@[j]).datatype != wanted,
            decreases self.storage.len() - i,
        {
            if self.storage[i].datatype == wanted {
                return Some(&self.storage[i]);
            }
            i = i + 1;
        }
        None
    }

    /// Whether a user is blocked: a stored value of the blocked kind names them.
    pub fn is_user_blocked(&self, user_id: u64) -> (r: bool)
        ensures
            r == exists|i: int|
                0 <= i < self.storage@.len() && (#[trigger] self.storage@[i]).datatype
                    == StorageDataType::Blocked.code() && self.storage@[i].dataid == Some(
                    reinterpret_signed(user_id),
                ),
    {
        let wanted = to_signed(user_id);
        let kind: i64 = StorageDataType::Blocked.into();
        let mut i: usize = 0;
        while i < self.storage.len()
            invariant
                i <= self.storage.len(),
                wanted == reinterpret_signed(user_id),
                kind == StorageDataType::Blocked.code(),
                forall|j: int|
                    0 <= j < i ==> !((#[trigger] self.storage@[j]).datatype == kind
                        && self.storage@[j].dataid == Some(wanted)),
            decreases self.storage.len() - i,
        {
            let row = &self.storage[i];
            if row.datatype == kind {
                if let Some(dataid) = row.dataid {
                    if dataid == wanted {
                        return true;
                    }
                }
            }
            i = i + 1;
        }
        false
    }

    /// The first project that belongs to an announcement or to a channel, with its
    /// position.
    pub fn projects_search(&self, id: i64, typeid: DiscordIds) -> (r: Option<(usize, &Project)>)
        ensures
            match r {
                Some((i, project)) => i < self.projects@.len() && project == &self.projects@[i as int]
                    && project_matches(*project, id, typeid) && forall|j: int|
                    0 <= j < i ==> !project_matches(#[trigger] self.projects@[j], id, typeid),
                None => forall|j: int|
                    0 <= j < self.projects@.len() ==> !project_matches(
                        #[trigger] self.projects@[j],
                        id,
                        typeid,
                    ),
            },
    {
        let mut i: usize = 0;
        while i < self.projects.len()
            invariant
                i <= self.projects.len(),
                forall|j: int|
                    0 <= j < i ==> !project_matches(#[trigger] self.projects@[j], id, typeid),
            decreases self.projects.len() - i,
        {
            let project = &self.projects[i];
            let found = match typeid {
                DiscordIds::Message => project.message_id == id,
                DiscordIds::Channel => project.channel_id == id,
                _ => false,
            };
            if found {
                return Some((i, project));
            }
            i = i + 1;
        }
        None
    }

    /// Takes the first project of a channel out of the table and hands it out.
    pub fn projects_delete(&mut self, p_channel_id: u64) -> (r: (&'static str, Option<Project>))
        ensures
            kept(*old(self), *final(self), Table::Projects),
            match r.1 {
                Some(project) => exists|i: int|
                    0 <= i < old(self).projects@.len() && project == old(self).projects@[i]
                        && project.channel_id == reinterpret_signed(p_channel_id) && (forall|j: int|
                        0 <= j < i ==> (#[trigger] old(self).projects@[j]).channel_id
                            != reinterpret_signed(p_channel_id)) && final(self).projects@ == old(
                        self,
                    ).projects@.remove(i) && r.0@ == ":ok:"@,
                None => final(self).projects@ == old(self).projects@ && r.0@
                    == channel_not_found_message() && forall|j: int|
                    0 <= j < old(self).projects@.len() ==> (#[trigger] old(
                        self,
                    ).projects@[j]).channel_id != reinterpret_signed(p_channel_id),
            },
    {
        let wanted = to_signed(p_channel_id);
        let found = match self.projects_search(wanted, DiscordIds::Channel) {
            Some((i, _)) => Some(i),
            None => None,
        };
        match found {
            Some(i) => {
                let project = self.projects.remove(i);
                (":ok:", Some(project))
            },
            None => ("Channel wasn't found", None),
        }
    }

    /// The position of the first ticket with an identifier.
    pub fn airtable_row_search(&self, aid: &str) -> (r: Option<&AirtableRow>)
        ensures
            match r {
                Some(row) => exists|i: int|
                    0 <= i < self.airtable@.len() && row == &self.airtable@[i] && row.aid@ == aid@
                        && forall|j: int|
                        0 <= j < i ==> (#[trigger] self.airtable@[j]).aid@ != aid@,
                None => forall|j: int|
                    0 <= j < self.airtable@.len() ==> (#[trigger] self.airtable@[j]).aid@ != aid@,
            },
    {
        let mut i: usize = 0;
        while i < self.airtable.len()
            invariant
                i <= self.airtable.len(),
                forall|j: int| 0 <= j < i ==> (#[trigger] self.airtable@[j]).aid@ != aid@,
            decreases self.airtable.len() - i,
        {
            if str_eq(self.airtable[i].aid.as_str(), aid) {
                return Some(&self.airtable[i]);
            }
            i = i + 1;
        }
        None
    }

    /// Adds a ticket unless one with its identifier is known, and says whether it did.
    pub fn airtable_row_add(&mut self, row: AirtableRow) -> (r: bool)
        ensures
            kept(*old(self), *final(self), Table::Airtable),
            r == forall|j: int|
                0 <= j < old(self).airtable@.len() ==> (#[trigger] old(self).airtable@[j]).aid@
                    != row.aid@,
            r ==> final(self).airtable@ == old(self).airtable@.push(row),
            !r ==> final(self).airtable@ == old(self).airtable@,
    {
        if self.airtable_row_search(row.aid.as_str()).is_some() {
            false
        } else {
            self.airtable.push(row);
            true
        }
    }

    /// The position of the first invitation with a code.
    pub fn invite_search(&self, code: &str) -> (r: Option<usize>)
        ensures
            match r {
                Some(i) => i < self.invites@.len() && self.invites@[i as int].code@ == code@
                    && forall|j: int| 0 <= j < i ==> (#[trigger] self.invites@[j]).code@ != code@,
                None => forall|j: int|
                    0 <= j < self.invites@.len() ==> (#[trigger] self.invites@[j]).code@ != code@,
            },
    {
        let mut i: usize = 0;
        while i < self.invites.len()
            invariant
                i <= self.invites.len(),
                forall|j: int| 0 <= j < i ==> (#[trigger] self.invites@[j]).code@ != code@,
            decreases self.invites.len() - i,
        {
            if str_eq(self.invites[i].code.as_str(), code) {
                return Some(i);
            }
            i = i + 1;
        }
        None
    }

    /// Updates the first invitation with a code, or adds one under `fresh_id` where the
    /// code is unknown. Hands out by how much the count of uses rose and a copy of the
    /// invitation as it is now.
    pub fn invite_update(
        &mut self,
        p_code: String,
        p_count: Option<i32>,
        p_actionchannel: Option<i64>,
        p_actionrole: Option<i64>,
        fresh_id: i32,
    ) -> (r: (i32, Invite))
        ensures
            kept(*old(self), *final(self), Table::Invites),
            match old(self).invite_position(p_code@) {
                Some(i) => {
                    let before = old(self).invites@[i];
                    let after = invite_updated(before, p_count, p_actionchannel, p_actionrole);
                    &&& r.0 == used_difference(before, p_count)
                    &&& invite_same(r.1, after)
                    &&& final(self).invites@.len() == old(self).invites@.len()
                    &&& invite_same(final(self).invites@[i], after)
                    &&& forall|j: int|
                        0 <= j < old(self).invites@.len() && j != i ==> final(self).invites@[j]
                            == old(self).invites@[j]
                },
                None => {
                    let added = Invite {
                        id: fresh_id,
                        code: p_code,
                        actionrole: p_actionrole,
                        actionchannel: p_actionchannel,
                        used_count: match p_count {
                            Some(c) => c,
                            None => 0,
                        },
                    };
                    &&& r.0 == 0
                    &&& invite_same(r.1, added)
                    &&& final(self).invites@.len() == old(self).invites@.len() + 1
                    &&& invite_same(final(self).invites@.last(), added)
                    &&& final(self).invites@.drop_last() == old(self).invites@
                },
            },
    {
        match self.invite_search(p_code.as_str()) {
            Some(i) => {
                let before = &self.invites[i];
                let used = match p_count {
                    Some(c) => c,
                    None => before.used_count,
                };
                let channel = if p_actionchannel.is_some() {
                    p_actionchannel
                } else {
                    before.actionchannel
                };
                let role = if p_actionrole.is_some() {
                    p_actionrole
                } else {
                    before.actionrole
                };
                let diff: i64 = used as i64 - before.used_count as i64;
                let used_diff: i32 = if diff > 0x7fff_ffff {
                    0x7fff_ffff
                } else if diff < -0x8000_0000 {
                    -0x8000_0000
                } else {
                    diff as i32
                };
                let id = before.id;
                let stored = Invite {
                    id,
                    code: before.code.clone(),
                    actionrole: role,
                    actionchannel: channel,
                    used_count: used,
                };
                let copy = Invite {
                    id,
                    code: before.code.clone(),
                    actionrole: role,
                    actionchannel: channel,
                    used_count: used,
                };
                proof {
                    old(self).lemma_invite_position(p_code@, i as int);
                }
                self.invites.set(i, stored);
                (used_diff, copy)
            },
            None => {
                let used = match p_count {
                    Some(c) => c,
                    None => 0,
                };
                let copy = Invite {
                    id: fresh_id,
                    code: p_code.clone(),
                    actionrole: p_actionrole,
                    actionchannel: p_actionchannel,
                    used_count: used,
                };
                proof {
                    old(self).lemma_invite_position(p_code@, old(self).invites@.len() as int);
                }
                self.invites.push(
                    Invite {
                        id: fresh_id,
                        code: p_code,
                        actionrole: p_actionrole,
                        actionchannel: p_actionchannel,
                        used_count: used,
                    },
                );
                assert(self.invites@.drop_last() =~= old(self).invites@);
                (0, copy)
            },
        }
    }

    /// The position of the first invitation with a code, if there is one.
    pub open spec fn invite_position(&self, code: Seq<char>) -> Option<int> {
        if exists|i: int| self.first_invite_at(code, i) {
            Some(choose|i: int| self.first_invite_at(code, i))
        } else {
            None
        }
    }

    /// Whether the invitation at position `i` is the first with a code.
    pub open spec fn first_invite_at(&self, code: Seq<char>, i: int) -> bool {
        &&& 0 <= i < self.invites@.len()
        &&& self.invites@[i].code@ == code
        &&& forall|j: int| 0 <= j < i ==> (#[trigger] self.invites@[j]).code@ != code
    }

    /// A position with the code and none before it is the one that `invite_position`
    /// gives; where no invitation has the code it gives none.
    pub proof fn lemma_invite_position(&self, code: Seq<char>, at: int)
        requires
            0 <= at <= self.invites@.len(),
            forall|j: int| 0 <= j < at ==> (#[trigger] self.invites@[j]).code@ != code,
            at < self.invites@.len() ==> self.invites@[at].code@ == code,
        ensures
            self.invite_position(code) == if at < self.invites@.len() {
                Some(at)
            } else {
                None
            },
    {
        if at < self.invites@.len() {
            assert(self.first_invite_at(code, at));
            let found = choose|i: int| self.first_invite_at(code, i);
            assert(self.first_invite_at(code, found));
            if found < at {
                assert(self.invites@[found].code@ != code);
            }
            if at < found {
                assert(self.invites@[at].code@ != code);
            }
        } else {
            assert forall|i: int| !self.first_invite_at(code, i) by {
                if 0 <= i < self.invites@.len() {
                    assert(self.invites@[i].code@ != code);
                }
            }
        }
    }

    /// Says what a new message or an edit changes in the tables.
    pub fn database_update(&self, message: &Message, is_edit: bool) -> (r: DatabaseUpdate)
        ensures
            r == database_update_of(*self, *message, is_edit),
    {
        if is_edit {
            let mut i: usize = 0;
            while i < self.messages.len()
                invariant
                    is_edit,
                    i <= self.messages.len(),
                    forall|j: int| 0 <= j < i ==> (#[trigger] self.messages@[j]).id != message.id,
                decreases self.messages.len() - i,
            {
                if self.messages[i].id == message.id {
                    assert(0 <= i < self.messages@.len() && self.messages@[i as int].id
                        == message.id);
                    return DatabaseUpdate::AddEdit;
                }
                i = i + 1;
            }
        }
        let ghost edited = is_edit && exists|i: int|
            0 <= i < self.messages@.len() && self.messages@[i].id == message.id;
        assert(!edited);
        let mut k: usize = 0;
        while k < self.users.len()
            invariant
                !edited,
                edited == (is_edit && exists|i: int|
                    0 <= i < self.messages@.len() && self.messages@[i].id == message.id),
                k <= self.users.len(),
                forall|j: int|
                    0 <= j < k ==> (#[trigger] self.users@[j]).discordid != message.author,
            decreases self.users.len() - k,
        {
            if self.users[k].discordid == message.author {
                assert(0 <= k < self.users@.len() && self.users@[k as int].discordid
                    == message.author);
                return DatabaseUpdate::AddMessage { new_user: false };
            }
            k = k + 1;
        }
        DatabaseUpdate::AddMessage { new_user: true }
    }

    /// The position of the first user stored under an identifier.
    pub fn user_search_mut(&self, discordid: u64) -> (r: Option<usize>)
        ensures
            match r {
                Some(i) => user_position(self.users@, reinterpret_signed(discordid)) == Some(
                    i as int,
                ) && i < self.users@.len(),
                None => user_position(self.users@, reinterpret_signed(discordid)) is None,
            },
    {
        let wanted = to_signed(discordid);
        let mut i: usize = 0;
        while i < self.users.len()
            invariant
                i <= self.users.len(),
                wanted == reinterpret_signed(discordid),
                forall|j: int| 0 <= j < i ==> (#[trigger] self.users@[j]).discordid != wanted,
            decreases self.users.len() - i,
        {
            if self.users[i].discordid == wanted {
                proof {
                    lemma_user_position_is(self.users@, wanted, i as int);
                }
                return Some(i);
            }
            i = i + 1;
        }
        proof {
            lemma_user_position_is(self.users@, wanted, i as int);
        }
        None
    }

    /// The first user stored under an identifier.
    pub fn user_search(&self, discordid: u64) -> (r: Option<&User>)
        ensures
            match user_position(self.users@, reinterpret_signed(discordid)) {
                Some(i) => r == Some(&self.users@[i]),
                None => r is None,
            },
    {
        match self.user_search_mut(discordid) {
            Some(i) => Some(&self.users[i]),
            None => None,
        }
    }

    /// Stores a new tier for the first user under an identifier, and says what was done.
    pub fn user_role_update(&mut self, discord_id: u64, new_role: Role) -> (r: String)
        ensures
            role_updated(*old(self), *final(self), discord_id, new_role, r@),
    {
        let i = match self.user_search_mut(discord_id) {
            None => {
                return "User not found".to_owned();
            },
            Some(i) => i,
        };
        let id = self.users[i].id;
        let discordid = self.users[i].discordid;
        self.users.set(i, User { id, discordid, role: new_role.to_string() });
        let mut out: Vec<char> = Vec::new();
        push_str(&mut out, "Updated ");
        push_signed_decimal(&mut out, discordid);
        push_str(&mut out, " to ");
        push_str(&mut out, new_role.as_str());
        assert(out@ =~= role_updated_message(discordid, new_role));
        string_of(&out)
    }
}

} // verus!
