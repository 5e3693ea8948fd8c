//! Turning message text into arguments and identifier mentions into numbers.

use vstd::prelude::*;
use crate::pattern::{all_matches, captures, find_all, first_captures};
use crate::text::{
    chars_of, parse_decimal, parse_decimal_spec, parse_unsigned, parse_unsigned_spec, push_str,
    str_eq, string_of,
};

verus! {

/// A run of characters that holds a quoted span, or else a run without blanks.
pub const MESSAGE_SPLIT: &'static str = r#"([^"\s]*"[^"\n]*"[^"\s]*)|([^\s]+)"#;

/// Whether `c` is one of the typographic quotation marks that count as `"`.
pub open spec fn is_fancy_quote(c: char) -> bool {
    c == '\u{201c}' || c == '\u{201d}' || c == '\u{2018}' || c == '\u{2019}' || c == '\u{ab}'
        || c == '\u{bb}' || c == '\u{201e}'
}

/// `c`, or `"` where `c` is a typographic quotation mark.
pub open spec fn plain_quote(c: char) -> char {
    if is_fancy_quote(c) {
        '"'
    } else {
        c
    }
}

/// `s` with every typographic quotation mark replaced by `"`.
pub open spec fn normalised(s: Seq<char>) -> Seq<char> {
    s.map_values(|c: char| plain_quote(c))
}

/// `s` without its quotation marks, read from a given escape state: a `"` is dropped
/// unless an unescaped backslash stands right before it.
pub open spec fn unquoted_from(s: Seq<char>, escaped: bool) -> Seq<char>
    decreases s.len(),
{
    if s.len() == 0 {
        Seq::empty()
    } else {
        let c = s[0];
        let rest = unquoted_from(s.drop_first(), !escaped && c == '\\');
        if c == '"' && !escaped {
            rest
        } else {
            seq![c] + rest
        }
    }
}

/// `s` without its unescaped quotation marks.
pub open spec fn unquoted(s: Seq<char>) -> Seq<char> {
    unquoted_from(s, false)
}

/// The arguments that a list of matched runs stands for.
pub open spec fn unquoted_all(runs: Seq<Seq<char>>) -> Seq<Seq<char>> {
    runs.map_values(|run: Seq<char>| unquoted(run))
}

/// The arguments of a message: the runs that the splitting pattern finds in the
/// normalised text, each without its unescaped quotation marks.
pub open spec fn message_args(input: Seq<char>) -> Seq<Seq<char>> {
    unquoted_all(all_matches(MESSAGE_SPLIT@, normalised(input)))
}

/// A run without quotation marks and backslashes is its own argument.
pub proof fn lemma_unquoted_plain(run: Seq<char>)
    requires
        forall|i: int| 0 <= i < run.len() ==> run[i] != '"' && run[i] != '\\',
    ensures
        unquoted(run) == run,
    decreases run.len(),
{
    if run.len() > 0 {
        let rest = run.drop_first();
        assert forall|i: int| 0 <= i < rest.len() implies rest[i] != '"' && rest[i] != '\\' by {
            assert(rest[i] == run[i + 1]);
        }
        lemma_unquoted_plain(rest);
        assert(seq![run[0]] + rest =~= run);
    }
}

/// Taking the quotation marks off never makes a run longer, whatever the escape state.
pub proof fn lemma_unquoted_is_no_longer(run: Seq<char>, escaped: bool)
    ensures
        unquoted_from(run, escaped).len() <= run.len(),
    decreases run.len(),
{
    if run.len() > 0 {
        lemma_unquoted_is_no_longer(run.drop_first(), !escaped && run[0] == '\\');
    }
}

/// A text without typographic quotation marks is its own normal form, and the normal
/// form of any text has none of them and the length of the text.
pub proof fn lemma_normalised(text: Seq<char>)
    ensures
        normalised(text).len() == text.len(),
        forall|i: int| 0 <= i < text.len() ==> !is_fancy_quote(#[trigger] normalised(text)[i]),
        (forall|i: int| 0 <= i < text.len() ==> !is_fancy_quote(#[trigger] text[i]))
            ==> normalised(text) == text,
{
    if forall|i: int| 0 <= i < text.len() ==> !is_fancy_quote(#[trigger] text[i]) {
        assert(normalised(text) =~= text);
    }
}

/// Replaces typographic quotation marks by `"`.
pub fn normalise_quotes(input: &str) -> (r: String)
    ensures
        r@ == normalised(input@),
{
    let chars = chars_of(input);
    let mut out: Vec<char> = Vec::new();
    let mut i: usize = 0;
    while i < chars.len()
        invariant
            i <= chars.len(),
            chars@ == input@,
            out@ == normalised(input@.take(i as int)),
        decreases chars.len() - i,
    {
        let c = chars[i];
        let plain = if c == '\u{201c}' || c == '\u{201d}' || c == '\u{2018}' || c == '\u{2019}'
            || c == '\u{ab}' || c == '\u{bb}' || c == '\u{201e}' {
            '"'
        } else {
            c
        };
        out.push(plain);
        i = i + 1;
        assert(out@ =~= normalised(input@.take(i as int)));
    }
    assert(input@.take(chars.len() as int) =~= input@);
    string_of(&out)
}

/// Removes the unescaped quotation marks of one matched run.
pub fn strip_quotes(run: &str) -> (r: String)
    ensures
        r@ == unquoted(run@),
{
    let chars = chars_of(run);
    let mut out: Vec<char> = Vec::new();
    let mut escaped = false;
    let mut i: usize = 0;
    assert(out@ + unquoted_from(run@.skip(0), false) =~= unquoted(run@)) by {
        assert(run@.skip(0) =~= run@);
    }
    while i < chars.len()
        invariant
            i <= chars.len(),
            chars@ == run@,
            out@ + unquoted_from(run@.skip(i as int), escaped) == unquoted(run@),
        decreases chars.len() - i,
    {
        let c = chars[i];
        proof {
            let tail = run@.skip(i as int);
            assert(tail[0] == c);
            assert(tail.drop_first() =~= run@.skip(i as int + 1));
            let rest = unquoted_from(tail.drop_first(), !escaped && c == '\\');
            if !(c == '"' && !escaped) {
                assert(out@.push(c) + rest =~= out@ + (seq![c] + rest));
            }
        }
        if !(c == '"' && !escaped) {
            out.push(c);
        }
        escaped = !escaped && c == '\\';
        i = i + 1;
    }
    assert(out@ + Seq::<char>::empty() =~= out@);
    string_of(&out)
}

/// Turns the runs matched in a message into its arguments.
pub fn args_from_matches(runs: &Vec<String>) -> (r: Vec<String>)
    ensures
        r.deep_view() == unquoted_all(runs.deep_view()),
{
    let mut out: Vec<String> = Vec::new();
    let mut i: usize = 0;
    while i < runs.len()
        invariant
            i <= runs.len(),
            out.len() == i,
            forall|j: int| 0 <= j < i ==> (#[trigger] out@[j])@ == unquoted(runs@[j]@),
        decreases runs.len() - i,
    {
        let arg = strip_quotes(runs[i].as_str());
        out.push(arg);
        i = i + 1;
    }
    assert(out.deep_view() =~= unquoted_all(runs.deep_view()));
    out
}

/// Splits a message into its arguments. Quoted spans keep their blanks and lose their
/// quotation marks; typographic quotation marks count as `"`.
pub fn split_message_args(input: &str) -> (r: Vec<String>)
    ensures
        r.deep_view() == message_args(input@),
{
    let clean = normalise_quotes(input);
    let runs = find_all(MESSAGE_SPLIT, clean.as_str());
    args_from_matches(&runs)
}

/// A mention: `<`, a marker of its kind, 18 to 24 digits, `>`.
pub const DISCORD_IDS: &'static str = r#"<(?<type>@!?|#|@&)(?<id>[0-9]{18,24})>"#;

/// A custom emoji: `<`, an optional `a`, `:name:`, 18 digits, `>`.
pub const EMOJI: &'static str = r#"<(a)?:(.*):([0-9]{18})>"#;

/// What an identifier names.
#[derive(Copy, Clone, Debug, PartialEq, Eq, Structural)]
pub enum DiscordIds {
    Message,
    Channel,
    Role,
    User,
}

impl DiscordIds {
    /// The kind's name as shown in messages.
    pub open spec fn name(self) -> Seq<char> {
        match self {
            DiscordIds::Message => "Message"@,
            DiscordIds::Channel => "Channel"@,
            DiscordIds::Role => "Role"@,
            DiscordIds::User => "User"@,
        }
    }

    /// The kind's name as text.
    pub fn as_str(self) -> (r: &'static str)
        ensures
            r@ == self.name(),
    {
        match self {
            DiscordIds::Message => "Message",
            DiscordIds::Channel => "Channel",
            DiscordIds::Role => "Role",
            DiscordIds::User => "User",
        }
    }

    /// The kind's name as an owned string.
    pub fn to_string(self) -> (r: String)
        ensures
            r@ == self.name(),
    {
        self.as_str().to_owned()
    }
}

/// The kind that the marker of a mention stands for.
pub open spec fn kind_of_marker(marker: Seq<char>) -> Option<DiscordIds> {
    if marker == "@"@ || marker == "@!"@ {
        Some(DiscordIds::User)
    } else if marker == "#"@ {
        Some(DiscordIds::Channel)
    } else if marker == "@&"@ {
        Some(DiscordIds::Role)
    } else {
        None
    }
}

/// The text of group `i` of a match, where that group took part in it.
pub open spec fn group_text(groups: Seq<Option<Seq<char>>>, i: int) -> Option<Seq<char>> {
    if 0 <= i < groups.len() {
        groups[i]
    } else {
        None
    }
}

/// The reply for text that holds no mention.
pub open spec fn no_id_message() -> Seq<char> {
    "Did not match an discord id"@
}

/// The reply for a mention whose marker names no kind.
pub open spec fn bad_kind_message(id: Seq<char>) -> Seq<char> {
    "Incorect type for discordid: "@ + id
}

/// The reply for a mention of another kind than the expected one.
pub open spec fn mismatch_message(expected: DiscordIds, got: DiscordIds) -> Seq<char> {
    "Mismatched type, expected: "@ + expected.name() + ", got: "@ + got.name()
}

/// What the groups of a mention stand for. The marker is group 1 and the digits are
/// group 2. A match without these groups, or with digits that write no 64-bit number,
/// counts as no mention.
pub open spec fn discord_id_of(
    id: Seq<char>,
    found: Option<Seq<Option<Seq<char>>>>,
    expected: Option<DiscordIds>,
) -> Result<(u64, DiscordIds), Seq<char>> {
    match found {
        None => Err(no_id_message()),
        Some(groups) => match (group_text(groups, 1), group_text(groups, 2)) {
            (Some(marker), Some(digits)) => match kind_of_marker(marker) {
                None => Err(bad_kind_message(id)),
                Some(kind) => if expected is Some && expected->0 != kind {
                    Err(mismatch_message(expected->0, kind))
                } else {
                    match parse_decimal_spec(digits) {
                        Some(n) => Ok((n, kind)),
                        None => Err(no_id_message()),
                    }
                },
            },
            _ => Err(no_id_message()),
        },
    }
}

/// A result with its message taken as a sequence of characters.
pub open spec fn id_result_view(r: Result<(u64, DiscordIds), String>) -> Result<
    (u64, DiscordIds),
    Seq<char>,
> {
    match r {
        Ok(v) => Ok(v),
        Err(e) => Err(e@),
    }
}

fn marker_kind(marker: &str) -> (r: Option<DiscordIds>)
    ensures
        r == kind_of_marker(marker@),
{
    if str_eq(marker, "@") || str_eq(marker, "@!") {
        Some(DiscordIds::User)
    } else if str_eq(marker, "#") {
        Some(DiscordIds::Channel)
    } else if str_eq(marker, "@&") {
        Some(DiscordIds::Role)
    } else {
        None
    }
}

/// Group `i` of a match, where it took part in it.
pub(crate) fn group_at(groups: &Vec<Option<String>>, i: usize) -> (r: Option<&String>)
    ensures
        r.deep_view() == group_text(groups.deep_view(), i as int),
{
    if i < groups.len() {
        groups[i].as_ref()
    } else {
        None
    }
}

fn no_id() -> (r: String)
    ensures
        r@ == no_id_message(),
{
    "Did not match an discord id".to_owned()
}

/// Reads the identifier and its kind from the groups of a matched mention.
pub fn discord_id_from_captures(
    id: &str,
    found: &Option<Vec<Option<String>>>,
    expected: Option<DiscordIds>,
) -> (r: Result<(u64, DiscordIds), String>)
    ensures
        id_result_view(r) == discord_id_of(id@, found.deep_view(), expected),
{
    let groups = match found {
        None => {
            return Err(no_id());
        },
        Some(groups) => groups,
    };
    let (marker, digits) = match (group_at(groups, 1), group_at(groups, 2)) {
        (Some(marker), Some(digits)) => (marker, digits),
        _ => {
            return Err(no_id());
        },
    };
    let kind = match marker_kind(marker.as_str()) {
        None => {
            let mut msg: Vec<char> = Vec::new();
            push_str(&mut msg, "Incorect type for discordid: ");
            push_str(&mut msg, id);
            assert(msg@ =~= bad_kind_message(id@));
            return Err(string_of(&msg));
        },
        Some(kind) => kind,
    };
    if let Some(wanted) = expected {
        if wanted != kind {
            let mut msg: Vec<char> = Vec::new();
            push_str(&mut msg, "Mismatched type, expected: ");
            push_str(&mut msg, wanted.as_str());
            push_str(&mut msg, ", got: ");
            push_str(&mut msg, kind.as_str());
            assert(msg@ =~= mismatch_message(wanted, kind));
            return Err(string_of(&msg));
        }
    }
    let digit_chars = chars_of(digits.as_str());
    match parse_decimal(&digit_chars) {
        Some(n) => Ok((n, kind)),
        None => Err(no_id()),
    }
}

/// Reads a mention such as `<@173013989180178432>` or `<#852815758911340565>`: its number
/// and what it names. With an expected kind, a mention of another kind is refused.
pub fn discord_str_to_id(id: &str, expected: Option<DiscordIds>) -> (r: Result<
    (u64, DiscordIds),
    String,
>)
    ensures
        id_result_view(r) == discord_id_of(id@, first_captures(DISCORD_IDS@, id@), expected),
{
    let found = captures(DISCORD_IDS, id);
    discord_id_from_captures(id, &found, expected)
}

/// What the groups of a custom emoji stand for: whether it is animated (group 1 took
/// part), its name (group 2) and its identifier (group 3).
pub open spec fn emoji_of(found: Option<Seq<Option<Seq<char>>>>) -> Option<
    (bool, Seq<char>, Seq<char>),
> {
    match found {
        None => None,
        Some(groups) => match (group_text(groups, 2), group_text(groups, 3)) {
            (Some(name), Some(id)) => Some((group_text(groups, 1) is Some, name, id)),
            _ => None,
        },
    }
}

/// The parts of a custom emoji with their texts taken as sequences of characters.
pub open spec fn emoji_view(r: Option<(bool, String, String)>) -> Option<
    (bool, Seq<char>, Seq<char>),
> {
    match r {
        Some((animated, name, id)) => Some((animated, name@, id@)),
        None => None,
    }
}

/// Reads the parts of a custom emoji from the groups of its match.
pub fn emoji_from_captures(found: &Option<Vec<Option<String>>>) -> (r: Option<
    (bool, String, String),
>)
    ensures
        emoji_view(r) == emoji_of(found.deep_view()),
{
    match found {
        None => None,
        Some(groups) => match (group_at(groups, 2), group_at(groups, 3)) {
            (Some(name), Some(id)) => {
                let animated = group_at(groups, 1).is_some();
                Some((animated, name.clone(), id.clone()))
            },
            _ => None,
        },
    }
}

/// Reads a custom emoji such as `<:pepe_cucumber:887736509292228668>`: whether it is
/// animated, its name and its identifier.
pub fn emoji_str_convert(emoji_str: &str) -> (r: Option<(bool, String, String)>)
    ensures
        emoji_view(r) == emoji_of(first_captures(EMOJI@, emoji_str@)),
{
    let found = captures(EMOJI, emoji_str);
    emoji_from_captures(&found)
}

/// The kinds of channels that a command can come from.
#[derive(Copy, Clone, Debug, PartialEq, Eq, Structural)]
pub enum ChannelKind {
    /// A private conversation.
    Private,
    /// A channel of the group with this identifier.
    Guild(u64),
    /// Any other kind.
    Other,
}

/// The answer to a group identifier that is no number.
pub open spec fn invalid_guild_message() -> Seq<char> {
    "Invalid guild id"@
}

/// The answer to a command in a channel of another kind.
pub open spec fn wrong_channel_kind_message() -> Seq<char> {
    "This doesn't work in this channel"@
}

/// The group that a command is about: the group of its channel; in a private
/// conversation the group that was given, or the main group where none was given.
pub open spec fn guild_of(channel: ChannelKind, main_guild: u64, gid: Option<Seq<char>>) -> Result<
    u64,
    Seq<char>,
> {
    match channel {
        ChannelKind::Private => match gid {
            Some(digits) => match parse_unsigned_spec(digits) {
                Some(id) => Ok(id),
                None => Err(invalid_guild_message()),
            },
            None => Ok(main_guild),
        },
        ChannelKind::Guild(id) => Ok(id),
        ChannelKind::Other => Err(wrong_channel_kind_message()),
    }
}

/// Finds the group that a command is about.
pub fn get_guild(channel: ChannelKind, main_guild: u64, gid: Option<&String>) -> (r: Result<
    u64,
    String,
>)
    ensures
        match guild_of(channel, main_guild, gid.deep_view()) {
            Ok(id) => r == Ok::<u64, String>(id),
            Err(answer) => r is Err && r->Err_0@ == answer,
        },
{
    match channel {
        ChannelKind::Private => match gid {
            Some(digits) => match parse_unsigned(digits.as_str()) {
                Some(id) => Ok(id),
                None => Err("Invalid guild id".to_owned()),
            },
            None => Ok(main_guild),
        },
        ChannelKind::Guild(id) => Ok(id),
        ChannelKind::Other => Err("This doesn't work in this channel".to_owned()),
    }
}

} // verus!
