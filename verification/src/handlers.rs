//! The commands that the bot knows, and what the plainest of them answer.

use vstd::prelude::*;
use crate::commands::{valid_definitions, Command, CommandView, Registry};
use crate::database::{role_updated, Instance};
use crate::ordering::{by_name, sort_by_name};
use crate::parse::{discord_id_of, discord_str_to_id, DiscordIds, DISCORD_IDS};
use crate::pattern::first_captures;
use crate::role::{role_named, Role};
use crate::text::{chars_of, push_str, reinterpret_signed, string_of, to_signed};

verus! {

/// The commands that the bot knows, by what runs them.
#[derive(Copy, Clone, Debug, PartialEq, Eq, Structural)]
pub enum Builtin {
    Quit,
    SendMessage,
    Users,
    SlashCommandSet,
    Promote,
    SetActivity,
    Edit,
    CreateProject,
    AddProject,
    DeleteProject,
    Add,
    Remove,
    ProjectClearUser,
    Invite,
    Archivage,
    OrderChannels,
    Remindme,
    Attack,
    MomChange,
    Mom,
    Cat,
    Rename,
    EmojiAdd,
    Block,
    Help,
    Anyone,
    CheckCalendar,
    EmojiSteal,
}

fn entry(
    name: &'static str,
    handler: Builtin,
    argument_min: usize,
    argument_max: usize,
    usage: &'static str,
    permission: Role,
) -> (r: Command<Builtin>)
    ensures
        r@ == defined(name@, argument_min as nat, argument_max as nat, usage@, permission),
        r.handler == handler,
{
    Command {
        name: name.to_owned(),
        handler,
        argument_min,
        argument_max,
        channel: None,
        usage: usage.to_owned(),
        permission,
    }
}

/// A definition of a command that is bound to no channel.
pub open spec fn defined(
    name: Seq<char>,
    argument_min: nat,
    argument_max: nat,
    usage: Seq<char>,
    permission: Role,
) -> CommandView {
    CommandView { name, argument_min, argument_max, channel: None, usage, permission }
}

/// The commands that the bot knows: the definition of each and what runs it.
pub open spec fn commands_table() -> Seq<(CommandView, Builtin)> {
    seq![
        (
            defined("quit"@, 0, 0, "@BOT quit"@, Role::Admin),
            Builtin::Quit,
        ),
        (
            defined("send_message"@, 2, 2, "@BOT send_message <#channelid> <@who>"@, Role::Admin),
            Builtin::SendMessage,
        ),
        (
            defined("users"@, 0, 0, "@BOT users"@, Role::Admin),
            Builtin::Users,
        ),
        (
            defined("slash-command-set"@, 0, 0, "@BOT quit"@, Role::Admin),
            Builtin::SlashCommandSet,
        ),
        (
            defined("promote"@, 2, 2, "@BOT promote <@user> <role>"@, Role::Admin),
            Builtin::Promote,
        ),
        (
            defined("set-activity"@, 1, 1, "@BOT set-activity <ACTIVITY_NAME>"@, Role::User),
            Builtin::SetActivity,
        ),
        (
            defined("edit"@, 2, 3, "@BOT edit [<#channel>] <message_id> \"<new content>\""@, Role::User),
            Builtin::Edit,
        ),
        (
            defined("create-project"@, 1, 7, "@BOT create-project <name> [codex=<codex>, client=<client>, lead=<Lead>, deadline=<Deadline>, description=<Brief projet>, contexte=<Contexte>]"@, Role::User),
            Builtin::CreateProject,
        ),
        (
            defined("add-project"@, 2, 8, "@BOT add-project <#channel_id> <name> [codex=<codex>, client=<client>, lead=<Lead>, deadline=<Deadline>, description=<Brief projet>, contexte=<Contexte>]"@, Role::User),
            Builtin::AddProject,
        ),
        (
            defined("delete-project"@, 1, 1, "@BOT delete-project <name>"@, Role::User),
            Builtin::DeleteProject,
        ),
        (
            defined("add"@, 1, 1, "@BOT add <@user>"@, Role::User),
            Builtin::Add,
        ),
        (
            defined("remove"@, 1, 1, "@BOT remove <@user>"@, Role::User),
            Builtin::Remove,
        ),
        (
            defined("project-clear-user"@, 1, 1, "@BOT project-clear-user <User>"@, Role::Admin),
            Builtin::ProjectClearUser,
        ),
        (
            defined("invite"@, 2, 3, "@BOT invite [<#invitecode>] <role AND OR channel>"@, Role::User),
            Builtin::Invite,
        ),
        (
            defined("archivage"@, 0, 1, "@BOT archivage [<category>]"@, Role::Admin),
            Builtin::Archivage,
        ),
        (
            defined("ordering"@, 0, 1, "@BOT ordering [<category>]"@, Role::Admin),
            Builtin::OrderChannels,
        ),
        (
            defined("remindme"@, 2, 2, "@BOT remindme <WHEN ex: 1minute,1m,10h,5days> <CONTENT>"@, Role::User),
            Builtin::Remindme,
        ),
        (
            defined("attack"@, 1, 1, "@BOT attack <@user>"@, Role::User),
            Builtin::Attack,
        ),
        (
            defined("mom-change"@, 1, 1, "@BOT momchange <@user>"@, Role::User),
            Builtin::MomChange,
        ),
        (
            defined("mom"@, 0, 0, "@BOT mom"@, Role::User),
            Builtin::Mom,
        ),
        (
            defined("cat"@, 0, 0, "@BOT cat"@, Role::Guest),
            Builtin::Cat,
        ),
        (
            defined("rename"@, 2, 3, "@BOT rename <@user> <new nickname> [<guild>]"@, Role::User),
            Builtin::Rename,
        ),
        (
            defined("emoji-add"@, 1, 1, "@BOT emoji-add <custom emoji>"@, Role::User),
            Builtin::EmojiAdd,
        ),
        (
            defined("block"@, 1, 1, "@BOT block <user>"@, Role::Admin),
            Builtin::Block,
        ),
        (
            defined("help"@, 0, 0, "@BOT help"@, Role::Guest),
            Builtin::Help,
        ),
        (
            defined("anyone"@, 0, 1, "@BOT anyone <message>"@, Role::User),
            Builtin::Anyone,
        ),
        (
            defined("check-calendar"@, 0, 1, "@BOT check_calendar <date = MM/AAAA>"@, Role::User),
            Builtin::CheckCalendar,
        ),
        (
            defined("emoji-steal"@, 0, 0, "@BOT emoji-steal (expected to be used as a reply to a message containing an emoji)"@, Role::User),
            Builtin::EmojiSteal,
        ),
    ]
}

/// What tells the names of the commands apart: the length, the second and the third
/// character.
pub open spec fn mark(name: Seq<char>) -> (nat, char, char) {
    (name.len(), name[1], name[2])
}

/// The definitions of the commands that the bot knows, which are valid: each has a name
/// of its own and its bounds in order.
pub fn commands_list() -> (r: Vec<Command<Builtin>>)
    ensures
        r@.len() == commands_table().len() == 28,
        forall|i: int|
            0 <= i < r@.len() ==> (#[trigger] r@[i])@ == commands_table()[i].0 && r@[i].handler
                == commands_table()[i].1,
        valid_definitions(Seq::new(r@.len(), |i: int| r@[i]@)),
{
    let r = vec![
        entry("quit", Builtin::Quit, 0, 0, "@BOT quit", Role::Admin),
        entry(
            "send_message",
            Builtin::SendMessage,
            2,
            2,
            "@BOT send_message <#channelid> <@who>",
            Role::Admin,
        ),
        entry("users", Builtin::Users, 0, 0, "@BOT users", Role::Admin),
        entry("slash-command-set", Builtin::SlashCommandSet, 0, 0, "@BOT quit", Role::Admin),
        entry("promote", Builtin::Promote, 2, 2, "@BOT promote <@user> <role>", Role::Admin),
        entry(
            "set-activity",
            Builtin::SetActivity,
            1,
            1,
            "@BOT set-activity <ACTIVITY_NAME>",
            Role::User,
        ),
        entry(
            "edit",
            Builtin::Edit,
            2,
            3,
            "@BOT edit [<#channel>] <message_id> \"<new content>\"",
            Role::User,
        ),
        entry(
            "create-project",
            Builtin::CreateProject,
            1,
            7,
            "@BOT create-project <name> [codex=<codex>, client=<client>, lead=<Lead>, deadline=<Deadline>, description=<Brief projet>, contexte=<Contexte>]",
            Role::User,
        ),
        entry(
            "add-project",
            Builtin::AddProject,
            2,
            8,
            "@BOT add-project <#channel_id> <name> [codex=<codex>, client=<client>, lead=<Lead>, deadline=<Deadline>, description=<Brief projet>, contexte=<Contexte>]",
            Role::User,
        ),
        entry(
            "delete-project",
            Builtin::DeleteProject,
            1,
            1,
            "@BOT delete-project <name>",
            Role::User,
        ),
        entry("add", Builtin::Add, 1, 1, "@BOT add <@user>", Role::User),
        entry("remove", Builtin::Remove, 1, 1, "@BOT remove <@user>", Role::User),
        entry(
            "project-clear-user",
            Builtin::ProjectClearUser,
            1,
            1,
            "@BOT project-clear-user <User>",
            Role::Admin,
        ),
        entry(
            "invite",
            Builtin::Invite,
            2,
            3,
            "@BOT invite [<#invitecode>] <role AND OR channel>",
            Role::User,
        ),
        entry("archivage", Builtin::Archivage, 0, 1, "@BOT archivage [<category>]", Role::Admin),
        entry("ordering", Builtin::OrderChannels, 0, 1, "@BOT ordering [<category>]", Role::Admin),
        entry(
            "remindme",
            Builtin::Remindme,
            2,
            2,
            "@BOT remindme <WHEN ex: 1minute,1m,10h,5days> <CONTENT>",
            Role::User,
        ),
        entry("attack", Builtin::Attack, 1, 1, "@BOT attack <@user>", Role::User),
        entry("mom-change", Builtin::MomChange, 1, 1, "@BOT momchange <@user>", Role::User),
        entry("mom", Builtin::Mom, 0, 0, "@BOT mom", Role::User),
        entry("cat", Builtin::Cat, 0, 0, "@BOT cat", Role::Guest),
        entry(
            "rename",
            Builtin::Rename,
            2,
            3,
            "@BOT rename <@user> <new nickname> [<guild>]",
            Role::User,
        ),
        entry("emoji-add", Builtin::EmojiAdd, 1, 1, "@BOT emoji-add <custom emoji>", Role::User),
        entry("block", Builtin::Block, 1, 1, "@BOT block <user>", Role::Admin),
        entry("help", Builtin::Help, 0, 0, "@BOT help", Role::Guest),
        entry("anyone", Builtin::Anyone, 0, 1, "@BOT anyone <message>", Role::User),
        entry(
            "check-calendar",
            Builtin::CheckCalendar,
            0,
            1,
            "@BOT check_calendar <date = MM/AAAA>",
            Role::User,
        ),
        entry(
            "emoji-steal",
            Builtin::EmojiSteal,
            0,
            0,
            "@BOT emoji-steal (expected to be used as a reply to a message containing an emoji)",
            Role::User,
        ),
    ];
    proof {
        reveal_strlit("quit");
        reveal_strlit("send_message");
        reveal_strlit("users");
        reveal_strlit("slash-command-set");
        reveal_strlit("promote");
        reveal_strlit("set-activity");
        reveal_strlit("edit");
        reveal_strlit("create-project");
        reveal_strlit("add-project");
        reveal_strlit("delete-project");
        reveal_strlit("add");
        reveal_strlit("remove");
        reveal_strlit("project-clear-user");
        reveal_strlit("invite");
        reveal_strlit("archivage");
        reveal_strlit("ordering");
        reveal_strlit("remindme");
        reveal_strlit("attack");
        reveal_strlit("mom-change");
        reveal_strlit("mom");
        reveal_strlit("cat");
        reveal_strlit("rename");
        reveal_strlit("emoji-add");
        reveal_strlit("block");
        reveal_strlit("help");
        reveal_strlit("anyone");
        reveal_strlit("check-calendar");
        reveal_strlit("emoji-steal");
        let views = Seq::new(r@.len(), |i: int| r@[i]@);
        assert(Seq::new(r@.len(), |i: int| (r@[i]@, r@[i].handler)) =~= commands_table());
        assert forall|i: int| 0 <= i < r@.len() implies (#[trigger] r@[i])@ == commands_table()[i].0
            && r@[i].handler == commands_table()[i].1 by {
            assert(Seq::new(r@.len(), |k: int| (r@[k]@, r@[k].handler))[i] == commands_table()[i]);
        }
        assert(views[0].name == "quit"@ && mark(views[0].name) == (4nat, 'u', 'i'));
        assert(views[1].name == "send_message"@ && mark(views[1].name) == (12nat, 'e', 'n'));
        assert(views[2].name == "users"@ && mark(views[2].name) == (5nat, 's', 'e'));
        assert(views[3].name == "slash-command-set"@ && mark(views[3].name) == (17nat, 'l', 'a'));
        assert(views[4].name == "promote"@ && mark(views[4].name) == (7nat, 'r', 'o'));
        assert(views[5].name == "set-activity"@ && mark(views[5].name) == (12nat, 'e', 't'));
        assert(views[6].name == "edit"@ && mark(views[6].name) == (4nat, 'd', 'i'));
        assert(views[7].name == "create-project"@ && mark(views[7].name) == (14nat, 'r', 'e'));
        assert(views[8].name == "add-project"@ && mark(views[8].name) == (11nat, 'd', 'd'));
        assert(views[9].name == "delete-project"@ && mark(views[9].name) == (14nat, 'e', 'l'));
        assert(views[10].name == "add"@ && mark(views[10].name) == (3nat, 'd', 'd'));
        assert(views[11].name == "remove"@ && mark(views[11].name) == (6nat, 'e', 'm'));
        assert(views[12].name == "project-clear-user"@ && mark(views[12].name) == (18nat, 'r', 'o'));
        assert(views[13].name == "invite"@ && mark(views[13].name) == (6nat, 'n', 'v'));
        assert(views[14].name == "archivage"@ && mark(views[14].name) == (9nat, 'r', 'c'));
        assert(views[15].name == "ordering"@ && mark(views[15].name) == (8nat, 'r', 'd'));
        assert(views[16].name == "remindme"@ && mark(views[16].name) == (8nat, 'e', 'm'));
        assert(views[17].name == "attack"@ && mark(views[17].name) == (6nat, 't', 't'));
        assert(views[18].name == "mom-change"@ && mark(views[18].name) == (10nat, 'o', 'm'));
        assert(views[19].name == "mom"@ && mark(views[19].name) == (3nat, 'o', 'm'));
        assert(views[20].name == "cat"@ && mark(views[20].name) == (3nat, 'a', 't'));
        assert(views[21].name == "rename"@ && mark(views[21].name) == (6nat, 'e', 'n'));
        assert(views[22].name == "emoji-add"@ && mark(views[22].name) == (9nat, 'm', 'o'));
        assert(views[23].name == "block"@ && mark(views[23].name) == (5nat, 'l', 'o'));
        assert(views[24].name == "help"@ && mark(views[24].name) == (4nat, 'e', 'l'));
        assert(views[25].name == "anyone"@ && mark(views[25].name) == (6nat, 'n', 'y'));
        assert(views[26].name == "check-calendar"@ && mark(views[26].name) == (14nat, 'h', 'e'));
        assert(views[27].name == "emoji-steal"@ && mark(views[27].name) == (11nat, 'm', 'o'));
        assert forall|i: int| 0 <= i < views.len() implies (#[trigger] views[i]).valid() by {}
        assert forall|i: int, j: int| 0 <= i < j < views.len() implies (
        #[trigger] views[i]).name != (#[trigger] views[j]).name by {
            assert(mark(views[i].name) != mark(views[j].name));
        }
    }
    r
}

/// The registry of the commands that the bot knows. Their definitions are valid, so
/// the registry is always built.
pub fn registry() -> (r: Registry<Builtin>)
    ensures
        r.wf(),
        r@.len() == 28,
{
    match Registry::build(commands_list()) {
        Ok(registry) => registry,
        Err(_) => vstd::pervasive::unreached(),
    }
}

/// The first lines of the help.
pub open spec fn help_header() -> Seq<char> {
    "Available commands: \nNAME => USAGE (<Args> [Optionals])| PERMISSION\n"@
}

/// The line of the help for a command.
pub open spec fn help_line(command: CommandView) -> Seq<char> {
    command.name + " => Usage: "@ + command.usage + " | {"@ + command.permission.name() + "}\n"@
}

/// The lines of the help for the commands at the positions `order`.
pub open spec fn help_lines(commands: Seq<CommandView>, order: Seq<int>) -> Seq<char>
    decreases order.len(),
{
    if order.len() == 0 {
        Seq::empty()
    } else {
        help_lines(commands, order.drop_last()) + help_line(commands[order.last()])
    }
}

/// The names of the commands.
pub open spec fn command_names(commands: Seq<CommandView>) -> Seq<Seq<char>> {
    Seq::new(commands.len(), |i: int| commands[i].name)
}

/// The help: its first lines, then a line for each command, in the order of the names.
pub open spec fn help_text(commands: Seq<CommandView>) -> Seq<char> {
    help_header() + help_lines(
        commands,
        by_name(command_names(commands), Seq::new(commands.len(), |i: int| i)),
    )
}

/// Writes the help for the commands of a registry.
pub fn print_help<H>(registry: &Registry<H>) -> (r: String)
    ensures
        r@ == help_text(registry@),
{
    let count = registry.len();
    let mut names: Vec<Vec<char>> = Vec::new();
    let mut all: Vec<usize> = Vec::new();
    let mut n: usize = 0;
    while n < count
        invariant
            n <= count,
            count == registry@.len(),
            names@.len() == n,
            all@.len() == n,
            forall|k: int| 0 <= k < n ==> (#[trigger] names@[k])@ == registry@[k].name,
            forall|k: int| 0 <= k < n ==> (#[trigger] all@[k]) == k,
        decreases count - n,
    {
        names.push(chars_of(registry.get(n).name.as_str()));
        all.push(n);
        n = n + 1;
    }
    assert(Seq::new(names@.len(), |k: int| names@[k]@) =~= command_names(registry@));
    assert(Seq::new(all@.len(), |k: int| all@[k] as int) =~= Seq::new(
        registry@.len(),
        |i: int| i,
    ));
    let order = sort_by_name(&names, &all);
    let ghost wanted = by_name(
        command_names(registry@),
        Seq::new(registry@.len(), |i: int| i),
    );
    assert(Seq::new(order@.len(), |k: int| order@[k] as int) == wanted);
    let mut out: Vec<char> = Vec::new();
    push_str(&mut out, "Available commands: \nNAME => USAGE (<Args> [Optionals])| PERMISSION\n");
    let ghost head = out@;
    let mut i: usize = 0;
    assert(wanted.take(0) =~= Seq::<int>::empty());
    assert(out@ =~= head + help_lines(registry@, wanted.take(0)));
    while i < order.len()
        invariant
            i <= order.len(),
            names@.len() == registry@.len(),
            wanted == Seq::new(order@.len(), |k: int| order@[k] as int),
            forall|k: int| 0 <= k < order@.len() ==> (#[trigger] order@[k]) < names@.len(),
            out@ == head + help_lines(registry@, wanted.take(i as int)),
        decreases order.len() - i,
    {
        let command = registry.get(order[i]);
        proof {
            assert(wanted.take(i as int + 1).drop_last() =~= wanted.take(i as int));
            assert(wanted.take(i as int + 1).last() == order@[i as int] as int);
        }
        let ghost before = out@;
        push_str(&mut out, command.name.as_str());
        push_str(&mut out, " => Usage: ");
        push_str(&mut out, command.usage.as_str());
        push_str(&mut out, " | {");
        push_str(&mut out, command.permission.as_str());
        push_str(&mut out, "}\n");
        assert(out@ =~= before + help_line(command@));
        i = i + 1;
        assert(out@ =~= head + help_lines(registry@, wanted.take(i as int)));
    }
    assert(wanted.take(order.len() as int) =~= wanted);
    string_of(&out)
}

/// What blocking a user comes to: the identifier to store as blocked with `:ok:` for
/// an answer, or the answer that refuses the mention.
pub open spec fn blocked_of(parsed: Result<(u64, DiscordIds), Seq<char>>) -> (Option<i64>, Seq<char>) {
    match parsed {
        Ok((id, kind)) => (Some(reinterpret_signed(id)), ":ok:"@),
        Err(answer) => (None, answer),
    }
}

/// Says what blocking the user of a mention comes to.
pub fn block_user(mention: &str) -> (r: (Option<i64>, String))
    ensures
        (r.0, r.1@) == blocked_of(
            discord_id_of(
                mention@,
                first_captures(DISCORD_IDS@, mention@),
                Some(DiscordIds::User),
            ),
        ),
{
    match discord_str_to_id(mention, Some(DiscordIds::User)) {
        Ok((id, _)) => (Some(to_signed(id)), ":ok:".to_owned()),
        Err(answer) => (None, answer),
    }
}

/// The answer to a tier that does not exist.
pub open spec fn role_not_found_message() -> Seq<char> {
    "Role not found"@
}

/// Gives the user of a mention another tier and says what was done: an unknown tier
/// and a mention that cannot be read are answered and change nothing.
pub fn promote_user(db: &mut Instance, mention: &str, role: &str) -> (r: String)
    ensures
        match role_named(role@) {
            None => r@ == role_not_found_message() && *final(db) == *old(db),
            Some(new_role) => match discord_id_of(
                mention@,
                first_captures(DISCORD_IDS@, mention@),
                Some(DiscordIds::User),
            ) {
                Err(answer) => r@ == answer && *final(db) == *old(db),
                Ok((id, kind)) => role_updated(*old(db), *final(db), id, new_role, r@),
            },
        },
{
    let new_role = match Role::from_str(role) {
        None => {
            return "Role not found".to_owned();
        },
        Some(new_role) => new_role,
    };
    match discord_str_to_id(mention, Some(DiscordIds::User)) {
        Ok((id, _)) => {
            db.user_role_update(id, new_role)
        },
        Err(answer) => answer,
    }
}

/// What is said after the bot took up an activity.
pub open spec fn activity_message(name: Seq<char>, activity: Seq<char>) -> Seq<char> {
    name + " is now "@ + activity + " !"@
}

/// Writes what is said after the bot took up an activity.
pub fn set_activity(name: &str, activity: &str) -> (r: String)
    ensures
        r@ == activity_message(name@, activity@),
{
    let mut out: Vec<char> = Vec::new();
    push_str(&mut out, name);
    push_str(&mut out, " is now ");
    push_str(&mut out, activity);
    push_str(&mut out, " !");
    assert(out@ =~= activity_message(name@, activity@));
    string_of(&out)
}

/// Where a message is sent by hand: the channel of the mention, or the answer that
/// refuses the mention.
pub fn manual_send_message(mention: &str) -> (r: Result<u64, String>)
    ensures
        match discord_id_of(
            mention@,
            first_captures(DISCORD_IDS@, mention@),
            Some(DiscordIds::Channel),
        ) {
            Ok((id, kind)) => r == Ok::<u64, String>(id),
            Err(answer) => r is Err && r->Err_0@ == answer,
        },
{
    match discord_str_to_id(mention, Some(DiscordIds::Channel)) {
        Ok((id, _)) => Ok(id),
        Err(answer) => Err(answer),
    }
}

/// The answer to an edit of a message that the bot did not write.
pub open spec fn not_own_message() -> Seq<char> {
    "I can only modify my own messages"@
}

/// What the edit of a message by hand answers, once it is known whether the bot wrote
/// the message: `:ok:` after the edit of one of its own, a refusal for any other.
pub fn modify_message(is_own: bool) -> (r: &'static str)
    ensures
        r@ == if is_own {
            ":ok:"@
        } else {
            not_own_message()
        },
{
    if is_own {
        ":ok:"
    } else {
        "I can only modify my own messages"
    }
}

} // verus!
