//! Projects: reading the arguments that describe one, and writing its sheet.

use vstd::prelude::*;
use crate::database::{project_matches, Instance, Storage, StorageDataType};
use crate::ordering::{ChannelType, GuildChannel};
use crate::parse::DiscordIds;
use crate::text::{
    chars_of, decimal_digits, pieces_of, push_decimal, push_str, reinterpret_signed,
    reinterpret_unsigned, split_on, str_eq, string_of, to_signed, to_unsigned,
};

verus! {

/// What describes a project.
#[derive(Debug)]
pub struct ProjectArgs {
    pub name: Option<String>,
    pub codex: Option<String>,
    pub client: Option<String>,
    pub lead: Option<String>,
    pub deadline: Option<String>,
    pub description: Option<String>,
    pub contexte: Option<String>,
}

/// What describes a project, with its texts taken as sequences of characters.
pub struct ProjectArgsView {
    pub name: Option<Seq<char>>,
    pub codex: Option<Seq<char>>,
    pub client: Option<Seq<char>>,
    pub lead: Option<Seq<char>>,
    pub deadline: Option<Seq<char>>,
    pub description: Option<Seq<char>>,
    pub contexte: Option<Seq<char>>,
}

/// A text, where there is one, as a sequence of characters.
pub open spec fn text_view(text: Option<String>) -> Option<Seq<char>> {
    match text {
        Some(t) => Some(t@),
        None => None,
    }
}

impl View for ProjectArgs {
    type V = ProjectArgsView;

    open spec fn view(&self) -> ProjectArgsView {
        ProjectArgsView {
            name: text_view(self.name),
            codex: text_view(self.codex),
            client: text_view(self.client),
            lead: text_view(self.lead),
            deadline: text_view(self.deadline),
            description: text_view(self.description),
            contexte: text_view(self.contexte),
        }
    }
}

/// A description that says nothing yet.
pub open spec fn no_args() -> ProjectArgsView {
    ProjectArgsView {
        name: None,
        codex: None,
        client: None,
        lead: None,
        deadline: None,
        description: None,
        contexte: None,
    }
}

/// The position of the first `=` of an argument, if it has one.
pub open spec fn equals_position(arg: Seq<char>) -> Option<int>
    decreases arg.len(),
{
    if arg.len() == 0 {
        None
    } else if arg[0] == '=' {
        Some(0)
    } else {
        match equals_position(arg.drop_first()) {
            Some(i) => Some(i + 1),
            None => None,
        }
    }
}

/// The answer to an argument whose key is unknown.
pub open spec fn invalid_argument_message(arg: Seq<char>) -> Seq<char> {
    "Invalid argument "@ + arg
}

/// The answer to a second argument without a key.
pub open spec fn unexpected_argument_message(arg: Seq<char>) -> Seq<char> {
    "Unexpected argument "@ + arg
}

/// The answer to a description without a name.
pub open spec fn missing_name_message() -> Seq<char> {
    "Missing name."@
}

/// A description after one more argument. An argument `key=value` sets the field of
/// that key, a later one replacing an earlier one; an argument without `=` is the name,
/// and there may be one only.
pub open spec fn with_argument(so_far: ProjectArgsView, arg: Seq<char>) -> Result<
    ProjectArgsView,
    Seq<char>,
> {
    match equals_position(arg) {
        None => if so_far.name is Some {
            Err(unexpected_argument_message(arg))
        } else {
            Ok(ProjectArgsView { name: Some(arg), ..so_far })
        },
        Some(at) => {
            let key = arg.take(at);
            let value = arg.skip(at + 1);
            if key == "codex"@ {
                Ok(ProjectArgsView { codex: Some(value), ..so_far })
            } else if key == "client"@ {
                Ok(ProjectArgsView { client: Some(value), ..so_far })
            } else if key == "lead"@ {
                Ok(ProjectArgsView { lead: Some(value), ..so_far })
            } else if key == "deadline"@ {
                Ok(ProjectArgsView { deadline: Some(value), ..so_far })
            } else if key == "description"@ {
                Ok(ProjectArgsView { description: Some(value), ..so_far })
            } else if key == "contexte"@ {
                Ok(ProjectArgsView { contexte: Some(value), ..so_far })
            } else {
                Err(invalid_argument_message(arg))
            }
        },
    }
}

/// A description after the arguments `args`, read from left to right; the answer to
/// the first argument that is refused, where one is.
pub open spec fn with_arguments(args: Seq<Seq<char>>) -> Result<ProjectArgsView, Seq<char>>
    decreases args.len(),
{
    if args.len() == 0 {
        Ok(no_args())
    } else {
        match with_arguments(args.drop_last()) {
            Err(answer) => Err(answer),
            Ok(so_far) => with_argument(so_far, args.last()),
        }
    }
}

/// The description that the arguments give, which must have a name.
pub open spec fn creation_args_of(args: Seq<Seq<char>>) -> Result<ProjectArgsView, Seq<char>> {
    match with_arguments(args) {
        Err(answer) => Err(answer),
        Ok(described) => if described.name is Some {
            Ok(described)
        } else {
            Err(missing_name_message())
        },
    }
}

/// A description or the answer that refuses it, with texts taken as sequences of
/// characters.
pub open spec fn args_result_view(r: Result<ProjectArgs, String>) -> Result<
    ProjectArgsView,
    Seq<char>,
> {
    match r {
        Ok(described) => Ok(described@),
        Err(answer) => Err(answer@),
    }
}

fn find_equals(arg: &Vec<char>) -> (r: Option<usize>)
    ensures
        match r {
            Some(at) => equals_position(arg@) == Some(at as int),
            None => equals_position(arg@) is None,
        },
        r is Some ==> r->0 < arg@.len(),
{
    let mut i: usize = 0;
    assert(arg@.skip(0) =~= arg@);
    while i < arg.len()
        invariant
            i <= arg.len(),
            equals_position(arg@) == match equals_position(arg@.skip(i as int)) {
                Some(at) => Some(at + i),
                None => None,
            },
        decreases arg.len() - i,
    {
        assert(arg@.skip(i as int)[0] == arg@[i as int]);
        assert(arg@.skip(i as int).drop_first() =~= arg@.skip(i as int + 1));
        if arg[i] == '=' {
            return Some(i);
        }
        i = i + 1;
    }
    None
}

fn slice_text(chars: &Vec<char>, from: usize, to: usize) -> (r: String)
    requires
        from <= to <= chars@.len(),
    ensures
        r@ == chars@.subrange(from as int, to as int),
{
    let mut out: Vec<char> = Vec::new();
    let mut i: usize = from;
    while i < to
        invariant
            from <= i <= to <= chars@.len(),
            out@ == chars@.subrange(from as int, i as int),
        decreases to - i,
    {
        out.push(chars[i]);
        i = i + 1;
        assert(out@ =~= chars@.subrange(from as int, i as int));
    }
    string_of(&out)
}

fn add_argument(so_far: ProjectArgs, arg: &str) -> (r: Result<ProjectArgs, String>)
    ensures
        args_result_view(r) == with_argument(so_far@, arg@),
{
    let chars = chars_of(arg);
    let mut so_far = so_far;
    match find_equals(&chars) {
        None => {
            if so_far.name.is_some() {
                let mut msg: Vec<char> = Vec::new();
                push_str(&mut msg, "Unexpected argument ");
                push_str(&mut msg, arg);
                assert(msg@ =~= unexpected_argument_message(arg@));
                Err(string_of(&msg))
            } else {
                so_far.name = Some(arg.to_owned());
                Ok(so_far)
            }
        },
        Some(at) => {
            let end = chars.len();
            let key = slice_text(&chars, 0, at);
            let value = slice_text(&chars, at + 1, end);
            assert(key@ =~= arg@.take(at as int));
            assert(value@ =~= arg@.skip(at as int + 1));
            if str_eq(key.as_str(), "codex") {
                so_far.codex = Some(value);
                Ok(so_far)
            } else if str_eq(key.as_str(), "client") {
                so_far.client = Some(value);
                Ok(so_far)
            } else if str_eq(key.as_str(), "lead") {
                so_far.lead = Some(value);
                Ok(so_far)
            } else if str_eq(key.as_str(), "deadline") {
                so_far.deadline = Some(value);
                Ok(so_far)
            } else if str_eq(key.as_str(), "description") {
                so_far.description = Some(value);
                Ok(so_far)
            } else if str_eq(key.as_str(), "contexte") {
                so_far.contexte = Some(value);
                Ok(so_far)
            } else {
                let mut msg: Vec<char> = Vec::new();
                push_str(&mut msg, "Invalid argument ");
                push_str(&mut msg, arg);
                assert(msg@ =~= invalid_argument_message(arg@));
                Err(string_of(&msg))
            }
        },
    }
}

/// The texts of the arguments.
pub open spec fn args_view(args: Seq<String>) -> Seq<Seq<char>> {
    Seq::new(args.len(), |i: int| args[i]@)
}

/// Reads the description of a project from the arguments of a command: a name, and
/// `key=value` for each of the fields `codex`, `client`, `lead`, `deadline`,
/// `description` and `contexte` that is given.
pub fn project_creation_args(args: &[String]) -> (r: Result<ProjectArgs, String>)
    ensures
        args_result_view(r) == creation_args_of(args_view(args@)),
{
    let ghost wanted = args_view(args@);
    let mut described = ProjectArgs {
        name: None,
        codex: None,
        client: None,
        lead: None,
        deadline: None,
        description: None,
        contexte: None,
    };
    let mut i: usize = 0;
    assert(wanted.take(0) =~= Seq::<Seq<char>>::empty());
    while i < args.len()
        invariant
            i <= args.len(),
            wanted == args_view(args@),
            with_arguments(wanted.take(i as int)) == Ok::<ProjectArgsView, Seq<char>>(described@),
        decreases args.len() - i,
    {
        proof {
            assert(wanted.take(i as int + 1).drop_last() =~= wanted.take(i as int));
            assert(wanted.take(i as int + 1).last() == args@[i as int]@);
        }
        match add_argument(described, args[i].as_str()) {
            Err(answer) => {
                proof {
                    lemma_refusal_stays(wanted, i as int + 1);
                }
                return Err(answer);
            },
            Ok(next) => {
                described = next;
            },
        }
        i = i + 1;
    }
    assert(wanted.take(args.len() as int) =~= wanted);
    if described.name.is_some() {
        Ok(described)
    } else {
        Err("Missing name.".to_owned())
    }
}

/// Once an argument is refused, the arguments after it change nothing.
pub proof fn lemma_refusal_stays(args: Seq<Seq<char>>, upto: int)
    requires
        0 <= upto <= args.len(),
        with_arguments(args.take(upto)) is Err,
    ensures
        with_arguments(args) == with_arguments(args.take(upto)),
    decreases args.len() - upto,
{
    if upto == args.len() {
        assert(args.take(upto) =~= args);
    } else {
        assert(args.take(upto + 1).drop_last() =~= args.take(upto));
        lemma_refusal_stays(args, upto + 1);
    }
}

/// A text, or another where there is none.
pub open spec fn or_text(text: Option<Seq<char>>, otherwise: Seq<char>) -> Seq<char> {
    match text {
        Some(t) => t,
        None => otherwise,
    }
}

/// The sheet that announces a project: its channel, the day it was made, and what
/// describes it, with a placeholder for each field that was not given and the author
/// as lead where no lead was given.
pub open spec fn project_sheet_text(
    channel: u64,
    date: Seq<char>,
    described: ProjectArgsView,
    author_name: Seq<char>,
) -> Seq<char> {
    "Cr\u{e9}ation de <#"@ + decimal_digits(channel as nat)
        + ">.\n\n**Fiche de projet**\n---\n**Date de cr\u{e9}ation** : "@ + date
        + "\n**Client** : "@ + or_text(described.client, ""@) + "\n**Codex** : "@ + or_text(
        described.codex,
        "#PXXX"@,
    ) + "\n**Lead projet** : "@ + or_text(described.lead, author_name)
        + "\n**Deadline (si applicable)** : "@ + or_text(described.deadline, "N/A"@)
        + "\n**Brief projet** : "@ + or_text(described.description, "N/A"@)
        + "\n**Contexte projet** : "@ + or_text(described.contexte, "N/A"@) + "\n  "@
}

fn push_or(out: &mut Vec<char>, text: &Option<String>, otherwise: &str)
    ensures
        final(out)@ == old(out)@ + or_text(text_view(*text), otherwise@),
{
    match text {
        Some(t) => push_str(out, t.as_str()),
        None => push_str(out, otherwise),
    }
}

/// Writes the sheet that announces a project. `date` is the day it was made, written as
/// day, month and year.
pub fn project_sheet(channel: u64, date: &str, described: &ProjectArgs, author_name: &str) -> (r:
    String)
    ensures
        r@ == project_sheet_text(channel, date@, described@, author_name@),
{
    let mut out: Vec<char> = Vec::new();
    push_str(&mut out, "Cr\u{e9}ation de <#");
    push_decimal(&mut out, channel);
    push_str(&mut out, ">.\n\n**Fiche de projet**\n---\n**Date de cr\u{e9}ation** : ");
    push_str(&mut out, date);
    push_str(&mut out, "\n**Client** : ");
    push_or(&mut out, &described.client, "");
    push_str(&mut out, "\n**Codex** : ");
    push_or(&mut out, &described.codex, "#PXXX");
    push_str(&mut out, "\n**Lead projet** : ");
    push_or(&mut out, &described.lead, author_name);
    push_str(&mut out, "\n**Deadline (si applicable)** : ");
    push_or(&mut out, &described.deadline, "N/A");
    push_str(&mut out, "\n**Brief projet** : ");
    push_or(&mut out, &described.description, "N/A");
    push_str(&mut out, "\n**Contexte projet** : ");
    push_or(&mut out, &described.contexte, "N/A");
    push_str(&mut out, "\n  ");
    assert(out@ =~= project_sheet_text(channel, date@, described@, author_name@));
    string_of(&out)
}

/// Whether a user is let into a channel or taken out of it.
#[derive(Copy, Clone, Debug, PartialEq, Eq, Structural)]
pub enum ReadState {
    Allow,
    Deny,
}

/// What is said after a user was let into a channel or taken out of it.
pub open spec fn read_permission_text(userid: u64, state: ReadState) -> Seq<char> {
    match state {
        ReadState::Allow => "Added <@"@ + decimal_digits(userid as nat) + "> Welcome !"@,
        ReadState::Deny => "Removed <@"@ + decimal_digits(userid as nat) + ">"@,
    }
}

/// Says what is answered after a user was let into a channel or taken out of it.
pub fn create_read_permission(userid: u64, state: ReadState) -> (r: String)
    ensures
        r@ == read_permission_text(userid, state),
{
    let mut out: Vec<char> = Vec::new();
    match state {
        ReadState::Allow => {
            push_str(&mut out, "Added <@");
            push_decimal(&mut out, userid);
            push_str(&mut out, "> Welcome !");
        },
        ReadState::Deny => {
            push_str(&mut out, "Removed <@");
            push_decimal(&mut out, userid);
            push_str(&mut out, ">");
        },
    }
    assert(out@ =~= read_permission_text(userid, state));
    string_of(&out)
}

/// What a search of members by a part of their name comes to.
#[derive(Debug)]
pub enum MemberChoice {
    /// The one member found is let into the channel.
    Allow(u64),
    /// None or several were found: this is answered.
    Answer(String),
}

/// A choice with its answer taken as a sequence of characters.
pub enum MemberChoiceView {
    Allow(u64),
    Answer(Seq<char>),
}

impl View for MemberChoice {
    type V = MemberChoiceView;

    open spec fn view(&self) -> MemberChoiceView {
        match self {
            MemberChoice::Allow(id) => MemberChoiceView::Allow(*id),
            MemberChoice::Answer(text) => MemberChoiceView::Answer(text@),
        }
    }
}

/// The names of the members found, each followed by a comma and a blank.
pub open spec fn listed_names(names: Seq<Seq<char>>) -> Seq<char>
    decreases names.len(),
{
    if names.len() == 0 {
        Seq::empty()
    } else {
        listed_names(names.drop_last()) + names.last() + ", "@
    }
}

/// What a search of members by a part of their name comes to: the one member found, or
/// an answer that says that none was found or which ones were.
pub open spec fn member_choice_of(usertag: Seq<char>, found: Seq<(u64, Seq<char>)>) -> MemberChoiceView {
    if found.len() == 0 {
        MemberChoiceView::Answer(
            "Didn't find any user with "@ + usertag + " in their name"@,
        )
    } else if found.len() == 1 {
        MemberChoiceView::Allow(found[0].0)
    } else {
        MemberChoiceView::Answer(
            "Found too many users with this name: "@ + usertag + ",\n found: "@ + listed_names(
                Seq::new(found.len(), |i: int| found[i].1),
            ),
        )
    }
}

/// Chooses among the members whose name holds `usertag`, given with their identifiers
/// and names.
pub fn check_containing(usertag: &str, found: &Vec<(u64, String)>) -> (r: MemberChoice)
    ensures
        r@ == member_choice_of(usertag@, found.deep_view()),
{
    if found.len() == 0 {
        let mut out: Vec<char> = Vec::new();
        push_str(&mut out, "Didn't find any user with ");
        push_str(&mut out, usertag);
        push_str(&mut out, " in their name");
        MemberChoice::Answer(string_of(&out))
    } else if found.len() == 1 {
        assert(found.deep_view()[0] == (found@[0].0, found@[0].1@));
        MemberChoice::Allow(found[0].0)
    } else {
        let mut out: Vec<char> = Vec::new();
        push_str(&mut out, "Found too many users with this name: ");
        push_str(&mut out, usertag);
        push_str(&mut out, ",\n found: ");
        let ghost head = out@;
        let ghost names = Seq::new(found.deep_view().len(), |i: int| found.deep_view()[i].1);
        let mut i: usize = 0;
        assert(names.take(0) =~= Seq::<Seq<char>>::empty());
        assert(out@ =~= head + listed_names(names.take(0)));
        while i < found.len()
            invariant
                i <= found.len(),
                names == Seq::new(found.deep_view().len(), |i: int| found.deep_view()[i].1),
                out@ == head + listed_names(names.take(i as int)),
            decreases found.len() - i,
        {
            proof {
                assert(names.take(i as int + 1).drop_last() =~= names.take(i as int));
                assert(found.deep_view()[i as int] == (found@[i as int].0, found@[i as int].1@));
                assert(names.take(i as int + 1).last() == found@[i as int].1@);
            }
            push_str(&mut out, found[i].1.as_str());
            push_str(&mut out, ", ");
            i = i + 1;
            assert(out@ =~= head + listed_names(names.take(i as int)));
        }
        assert(names.take(found.len() as int) =~= names);
        MemberChoice::Answer(string_of(&out))
    }
}

/// Finds the channel of the project that a message announces: the first project with
/// that announcement, where its channel is stored as a positive number.
pub fn check_subscribe(db: &Instance, message_id: u64) -> (r: Option<u64>)
    ensures
        match r {
            Some(channel) => exists|i: int|
                0 <= i < db.projects@.len() && project_matches(
                    #[trigger] db.projects@[i],
                    reinterpret_signed(message_id),
                    DiscordIds::Message,
                ) && (forall|j: int|
                    0 <= j < i ==> !project_matches(
                        #[trigger] db.projects@[j],
                        reinterpret_signed(message_id),
                        DiscordIds::Message,
                    )) && db.projects@[i].channel_id > 0 && channel == reinterpret_unsigned(
                    db.projects@[i].channel_id,
                ),
            None => forall|i: int|
                0 <= i < db.projects@.len() && project_matches(
                    #[trigger] db.projects@[i],
                    reinterpret_signed(message_id),
                    DiscordIds::Message,
                ) && (forall|j: int|
                    0 <= j < i ==> !project_matches(
                        #[trigger] db.projects@[j],
                        reinterpret_signed(message_id),
                        DiscordIds::Message,
                    )) ==> db.projects@[i].channel_id <= 0,
        },
{
    match db.projects_search(to_signed(message_id), DiscordIds::Message) {
        Some((at, project)) => {
            if project.channel_id > 0 {
                Some(to_unsigned(project.channel_id))
            } else {
                assert forall|i: int|
                    0 <= i < db.projects@.len() && project_matches(
                        #[trigger] db.projects@[i],
                        reinterpret_signed(message_id),
                        DiscordIds::Message,
                    ) && (forall|j: int|
                        0 <= j < i ==> !project_matches(
                            #[trigger] db.projects@[j],
                            reinterpret_signed(message_id),
                            DiscordIds::Message,
                        )) implies db.projects@[i].channel_id <= 0 by {
                    if i < at {
                        assert(!project_matches(
                            db.projects@[i],
                            reinterpret_signed(message_id),
                            DiscordIds::Message,
                        ));
                    }
                    if at < i {
                        assert(!project_matches(
                            db.projects@[at as int],
                            reinterpret_signed(message_id),
                            DiscordIds::Message,
                        ));
                    }
                }
                None
            }
        },
        None => None,
    }
}

/// What the creation of a project answers at its end: nothing where the command came
/// from the channel of announcements, whose message is removed; `:ok:` anywhere else.
pub fn project_init(message_channel: u64, announcement_channel: u64) -> (r: Option<&'static str>)
    ensures
        r.deep_view() == if message_channel == announcement_channel {
            None
        } else {
            Some(":ok:"@)
        },
{
    if message_channel == announcement_channel {
        None
    } else {
        Some(":ok:")
    }
}

/// Whether a channel is the channel of a project: a text channel of the category of
/// projects other than the channel of announcements.
pub open spec fn is_project_channel(channel: GuildChannel, category: u64, announcement: u64) -> bool {
    channel.kind == ChannelType::Text && channel.parent_id == Some(category) && channel.id
        != announcement
}

/// The positions of the channels of projects, in order.
pub open spec fn project_channels(channels: Seq<GuildChannel>, category: u64, announcement: u64) -> Seq<
    int,
>
    decreases channels.len(),
{
    if channels.len() == 0 {
        Seq::empty()
    } else if is_project_channel(channels.last(), category, announcement) {
        project_channels(channels.drop_last(), category, announcement).push(channels.len() - 1)
    } else {
        project_channels(channels.drop_last(), category, announcement)
    }
}

/// Finds the channels of projects among the channels of the group.
pub fn list_projects(channels: &Vec<GuildChannel>, category: u64, announcement: u64) -> (r: Vec<
    usize,
>)
    ensures
        Seq::new(r@.len(), |k: int| r@[k] as int) == project_channels(
            channels@,
            category,
            announcement,
        ),
        forall|k: int| 0 <= k < r@.len() ==> (#[trigger] r@[k]) < channels@.len(),
{
    let mut out: Vec<usize> = Vec::new();
    let mut i: usize = 0;
    assert(channels@.take(0) =~= Seq::<GuildChannel>::empty());
    assert(Seq::new(out@.len(), |k: int| out@[k] as int) =~= project_channels(
        channels@.take(0),
        category,
        announcement,
    ));
    while i < channels.len()
        invariant
            i <= channels.len(),
            Seq::new(out@.len(), |k: int| out@[k] as int) == project_channels(
                channels@.take(i as int),
                category,
                announcement,
            ),
            forall|k: int| 0 <= k < out@.len() ==> (#[trigger] out@[k]) < i,
        decreases channels.len() - i,
    {
        let channel = &channels[i];
        let ghost before = Seq::new(out@.len(), |k: int| out@[k] as int);
        proof {
            assert(channels@.take(i as int + 1).drop_last() =~= channels@.take(i as int));
            assert(channels@.take(i as int + 1).last() == channels@[i as int]);
        }
        let inside = channel.kind == ChannelType::Text && match channel.parent_id {
            Some(parent) => parent == category,
            None => false,
        } && channel.id != announcement;
        if inside {
            out.push(i);
            assert(Seq::new(out@.len(), |k: int| out@[k] as int) =~= before.push(i as int));
        }
        i = i + 1;
    }
    assert(channels@.take(channels.len() as int) =~= channels@);
    out
}

/// The lines of the list of projects for the channels `ids`: for each, its glyph, a
/// tab and its mention in bold. A channel without a glyph is left out.
pub open spec fn bottom_lines(ids: Seq<u64>, numbers: Seq<Seq<char>>) -> Seq<char>
    decreases ids.len(),
{
    if ids.len() == 0 {
        Seq::empty()
    } else {
        let index = ids.len() - 1;
        bottom_lines(ids.drop_last(), numbers) + if index < numbers.len() {
            numbers[index] + "\t**__<#"@ + decimal_digits(ids.last() as nat) + ">__**\n"@
        } else {
            Seq::empty()
        }
    }
}

/// The identifiers of the channels, with a comma between two of them.
pub open spec fn bottom_channels(ids: Seq<u64>) -> Seq<char>
    decreases ids.len(),
{
    if ids.len() == 0 {
        Seq::empty()
    } else if ids.len() == 1 {
        decimal_digits(ids[0] as nat)
    } else {
        bottom_channels(ids.drop_last()) + ","@ + decimal_digits(ids.last() as nat)
    }
}

/// Writes one message of the list of projects, for at most as many channels as there
/// are glyphs: the lines shown, and the identifiers as they are stored.
pub fn bottom_list_current(ids: &Vec<u64>, numbers: &Vec<String>) -> (r: (String, String))
    ensures
        r.0@ == bottom_lines(ids@, numbers.deep_view()),
        r.1@ == bottom_channels(ids@),
{
    let ghost glyphs = numbers.deep_view();
    let mut lines: Vec<char> = Vec::new();
    let mut stored: Vec<char> = Vec::new();
    let mut index: usize = 0;
    assert(ids@.take(0) =~= Seq::<u64>::empty());
    while index < ids.len()
        invariant
            index <= ids.len(),
            glyphs == numbers.deep_view(),
            lines@ == bottom_lines(ids@.take(index as int), glyphs),
            stored@ == bottom_channels(ids@.take(index as int)),
        decreases ids.len() - index,
    {
        proof {
            assert(ids@.take(index as int + 1).drop_last() =~= ids@.take(index as int));
            assert(ids@.take(index as int + 1).last() == ids@[index as int]);
            if index == 0 {
                assert(ids@.take(1)[0] == ids@[0]);
            }
        }
        let ghost shown = lines@;
        let ghost kept = stored@;
        if index < numbers.len() {
            assert(glyphs[index as int] == numbers@[index as int]@);
            push_str(&mut lines, numbers[index].as_str());
            push_str(&mut lines, "\t**__<#");
            push_decimal(&mut lines, ids[index]);
            push_str(&mut lines, ">__**\n");
            assert(lines@ =~= shown + (glyphs[index as int] + "\t**__<#"@ + decimal_digits(
                ids@[index as int] as nat,
            ) + ">__**\n"@));
        } else {
            assert(lines@ =~= shown + Seq::<char>::empty());
        }
        if index > 0 {
            push_str(&mut stored, ",");
        }
        push_decimal(&mut stored, ids[index]);
        proof {
            if index == 0 {
                assert(stored@ =~= decimal_digits(ids@[0] as nat));
            } else {
                assert(stored@ =~= kept + ","@ + decimal_digits(ids@[index as int] as nat));
            }
        }
        index = index + 1;
    }
    assert(ids@.take(ids.len() as int) =~= ids@);
    (string_of(&lines), string_of(&stored))
}

/// The position of the first glyph that is `emoji`, if there is one.
pub open spec fn glyph_position(numbers: Seq<Seq<char>>, emoji: Seq<char>) -> Option<int>
    decreases numbers.len(),
{
    if numbers.len() == 0 {
        None
    } else if numbers[0] == emoji {
        Some(0)
    } else {
        match glyph_position(numbers.drop_first(), emoji) {
            Some(i) => Some(i + 1),
            None => None,
        }
    }
}

/// The channel that a glyph of the list of projects stands for: the piece of the stored
/// identifiers at the position of the glyph among the glyphs; nothing for any other
/// glyph, or where the list is shorter.
pub open spec fn listed_channel(
    channels_id: Seq<char>,
    numbers: Seq<Seq<char>>,
    emoji: Seq<char>,
) -> Option<Seq<char>> {
    match glyph_position(numbers, emoji) {
        None => None,
        Some(at) => {
            let pieces = pieces_of(channels_id, ',');
            if at < pieces.len() {
                Some(pieces[at])
            } else {
                None
            }
        },
    }
}

fn find_glyph(numbers: &Vec<String>, emoji: &str) -> (r: Option<usize>)
    ensures
        match r {
            Some(at) => glyph_position(numbers.deep_view(), emoji@) == Some(at as int),
            None => glyph_position(numbers.deep_view(), emoji@) is None,
        },
{
    let ghost glyphs = numbers.deep_view();
    let mut number: usize = 0;
    assert(glyphs.skip(0) =~= glyphs);
    while number < numbers.len()
        invariant
            number <= numbers.len(),
            glyphs == numbers.deep_view(),
            glyph_position(glyphs, emoji@) == match glyph_position(
                glyphs.skip(number as int),
                emoji@,
            ) {
                Some(i) => Some(i + number),
                None => None,
            },
        decreases numbers.len() - number,
    {
        assert(glyphs.skip(number as int)[0] == numbers@[number as int]@);
        assert(glyphs.skip(number as int).drop_first() =~= glyphs.skip(number as int + 1));
        if str_eq(numbers[number].as_str(), emoji) {
            return Some(number);
        }
        number = number + 1;
    }
    None
}

/// Finds the channel that a reaction on the list of projects stands for.
pub fn check_subscribe_bottom_list(channels_id: &str, numbers: &Vec<String>, emoji: &str) -> (r:
    Option<String>)
    ensures
        r.deep_view() == listed_channel(channels_id@, numbers.deep_view(), emoji@),
{
    let number = match find_glyph(numbers, emoji) {
        Some(number) => number,
        None => {
            return None;
        },
    };
    let chars = chars_of(channels_id);
    let pieces = split_on(&chars, ',');
    if number < pieces.len() {
        assert(pieces.deep_view()[number as int] == pieces@[number as int].deep_view());
        assert(pieces@[number as int].deep_view() =~= pieces@[number as int]@);
        Some(string_of(&pieces[number]))
    } else {
        None
    }
}

/// The identifiers of the stored values of the kind of the list of projects, in order.
pub open spec fn bottom_message_ids(storage: Seq<Storage>) -> Seq<i32>
    decreases storage.len(),
{
    if storage.len() == 0 {
        Seq::empty()
    } else if storage.last().datatype == StorageDataType::ProjectBottomMessage.code() {
        bottom_message_ids(storage.drop_last()).push(storage.last().id)
    } else {
        bottom_message_ids(storage.drop_last())
    }
}

/// Takes the stored messages of the list of projects out of the table and hands them
/// out, so that the messages themselves can be removed.
pub fn delete_previous_bottom_message(db: &mut Instance) -> (r: Vec<Storage>)
    ensures
        r@ == crate::database::rows_among(
            old(db).storage@,
            crate::database::widened(bottom_message_ids(old(db).storage@)),
        ),
        final(db).storage@ == crate::database::rows_beside(
            old(db).storage@,
            crate::database::widened(bottom_message_ids(old(db).storage@)),
        ),
        crate::database::kept(*old(db), *final(db), crate::database::Table::Storage),
{
    let kind: i64 = StorageDataType::ProjectBottomMessage.into();
    let mut ids: Vec<i32> = Vec::new();
    let mut i: usize = 0;
    assert(db.storage@.take(0) =~= Seq::<Storage>::empty());
    while i < db.storage.len()
        invariant
            i <= db.storage.len(),
            *db == *old(db),
            kind == StorageDataType::ProjectBottomMessage.code(),
            ids@ == bottom_message_ids(db.storage@.take(i as int)),
        decreases db.storage.len() - i,
    {
        proof {
            assert(db.storage@.take(i as int + 1).drop_last() =~= db.storage@.take(i as int));
            assert(db.storage@.take(i as int + 1).last() == db.storage@[i as int]);
        }
        if db.storage[i].datatype == kind {
            ids.push(db.storage[i].id);
        }
        i = i + 1;
    }
    assert(db.storage@.take(db.storage.len() as int) =~= db.storage@);
    db.storage_delete(ids)
}

} // verus!
