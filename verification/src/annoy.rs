//! Teasing: random reactions in some channels and on the messages of a chosen user.

use vstd::prelude::*;
use crate::text::{chars_of, push_str, str_eq, string_of};

verus! {

/// Draws a number at random.
///
/// Calls `rand::random::<usize>()`. Nothing is promised of the number.
#[verifier::external_body]
pub(crate) fn random_usize() -> usize {
    rand::random::<usize>()
}

/// The reactions of the channel of cats.
pub open spec fn cats() -> Seq<char> {
    seq![
        '\u{1f63a}',
        '\u{1f638}',
        '\u{1f639}',
        '\u{1f63b}',
        '\u{1f63c}',
        '\u{1f63d}',
        '\u{1f640}',
        '\u{1f63f}',
        '\u{1f63e}',
        '\u{1f408}',
        '\u{1f401}',
        '\u{1f42d}',
    ]
}

/// The reactions of the channels of keys.
pub open spec fn keys() -> Seq<char> {
    seq![
        '\u{1f511}',
        '\u{1f5dd}',
        '\u{1f50f}',
        '\u{1f510}',
        '\u{1f512}',
        '\u{1f513}',
        '\u{1f5b1}',
        '\u{1f453}',
    ]
}

/// The reactions put on the messages of the chosen user.
pub open spec fn annoying() -> Seq<char> {
    seq![
        '\u{1f427}',
        '\u{1f4a9}',
        '\u{1f34c}',
        '\u{1f4a3}',
        '\u{1f47e}',
        '\u{1f414}',
        '\u{1f4db}',
        '\u{1f525}',
        '\u{203c}',
        '\u{26a1}',
        '\u{26a0}',
    ]
}

/// The excuses given to the chosen user.
pub open spec fn annoying_message() -> Seq<Seq<char>> {
    seq![
        "Ah oui mais y'a JPO"@,
        "Vous pourriez faire \u{e7}a vous meme s'il vous pla\u{ee}t ? Je suis occup\u{e9}"@,
        "Avant, Faut laver les vitres les gars"@,
        "Ah mais vous faites quoi ?"@,
        "Non mais tu as vu le jeu qui est sorti ?"@,
        "Je bosse sur un projet super innovant en ce moment, j'ai pas le temps"@,
    ]
}

fn cats_list() -> (r: Vec<char>)
    ensures
        r@ == cats(),
{
    let r = vec![
        '\u{1f63a}',
        '\u{1f638}',
        '\u{1f639}',
        '\u{1f63b}',
        '\u{1f63c}',
        '\u{1f63d}',
        '\u{1f640}',
        '\u{1f63f}',
        '\u{1f63e}',
        '\u{1f408}',
        '\u{1f401}',
        '\u{1f42d}',
    ];
    assert(r@ =~= cats());
    r
}

fn keys_list() -> (r: Vec<char>)
    ensures
        r@ == keys(),
{
    let r = vec![
        '\u{1f511}',
        '\u{1f5dd}',
        '\u{1f50f}',
        '\u{1f510}',
        '\u{1f512}',
        '\u{1f513}',
        '\u{1f5b1}',
        '\u{1f453}',
    ];
    assert(r@ =~= keys());
    r
}

fn annoying_list() -> (r: Vec<char>)
    ensures
        r@ == annoying(),
{
    let r = vec![
        '\u{1f427}',
        '\u{1f4a9}',
        '\u{1f34c}',
        '\u{1f4a3}',
        '\u{1f47e}',
        '\u{1f414}',
        '\u{1f4db}',
        '\u{1f525}',
        '\u{203c}',
        '\u{26a1}',
        '\u{26a0}',
    ];
    assert(r@ =~= annoying());
    r
}

fn annoying_message_list() -> (r: Vec<&'static str>)
    ensures
        r.deep_view() == annoying_message(),
{
    let r = vec![
        "Ah oui mais y'a JPO",
        "Vous pourriez faire \u{e7}a vous meme s'il vous pla\u{ee}t ? Je suis occup\u{e9}",
        "Avant, Faut laver les vitres les gars",
        "Ah mais vous faites quoi ?",
        "Non mais tu as vu le jeu qui est sorti ?",
        "Je bosse sur un projet super innovant en ce moment, j'ai pas le temps",
    ];
    assert(r.deep_view() =~= annoying_message());
    r
}

/// The channels in which the bot teases.
#[derive(Copy, Clone, Debug, PartialEq, Eq, Structural)]
pub struct AnnoyedChannels {
    /// The channel of cats.
    pub herdingchatte: u64,
    /// The first channel of keys.
    pub cybergod: u64,
    /// The second channel of keys.
    pub testbot: u64,
}

/// The reaction that one teased channel gets for two drawn numbers: one message in
/// ten gets the icon that the second number picks.
pub open spec fn teased(here: bool, icons: Seq<char>, active: usize, icon: usize) -> Seq<char> {
    if here && active % 10 == 0 && icons.len() > 0 {
        seq![icons[icon as int % icons.len() as int]]
    } else {
        Seq::empty()
    }
}

/// The reactions that a message in `channel` gets for six drawn numbers, two for each
/// teased channel in turn.
pub open spec fn annoy_reactions(channel: u64, ids: AnnoyedChannels, drawn: Seq<usize>) -> Seq<char>
    recommends
        drawn.len() == 6,
{
    teased(channel == ids.herdingchatte, cats(), drawn[0], drawn[1]) + teased(
        channel == ids.cybergod,
        keys(),
        drawn[2],
        drawn[3],
    ) + teased(channel == ids.testbot, keys(), drawn[4], drawn[5])
}

fn tease(out: &mut Vec<char>, here: bool, icons: &Vec<char>, active: usize, icon: usize)
    ensures
        final(out)@ == old(out)@ + teased(here, icons@, active, icon),
{
    if here && active % 10 == 0 && icons.len() > 0 {
        out.push(icons[icon % icons.len()]);
        assert(out@ =~= old(out)@ + teased(here, icons@, active, icon));
    } else {
        assert(out@ =~= old(out)@ + teased(here, icons@, active, icon));
    }
}

/// The reactions for a message in `channel`, from six numbers already drawn.
pub fn annoy_channel_with(channel: u64, ids: AnnoyedChannels, drawn: &[usize; 6]) -> (r: Vec<char>)
    ensures
        r@ == annoy_reactions(channel, ids, drawn@),
{
    let cats = cats_list();
    let keys = keys_list();
    let mut out: Vec<char> = Vec::new();
    tease(&mut out, channel == ids.herdingchatte, &cats, drawn[0], drawn[1]);
    tease(&mut out, channel == ids.cybergod, &keys, drawn[2], drawn[3]);
    tease(&mut out, channel == ids.testbot, &keys, drawn[4], drawn[5]);
    assert(out@ =~= annoy_reactions(channel, ids, drawn@));
    out
}

/// Draws `count` numbers at random.
pub fn draw(count: usize) -> (r: Vec<usize>)
    ensures
        r@.len() == count,
{
    let mut out: Vec<usize> = Vec::new();
    while out.len() < count
        invariant
            out@.len() <= count,
        decreases count - out@.len(),
    {
        out.push(random_usize());
    }
    out
}

/// Draws six numbers at random.
pub fn draw_six() -> [usize; 6] {
    [
        random_usize(),
        random_usize(),
        random_usize(),
        random_usize(),
        random_usize(),
        random_usize(),
    ]
}

/// Teases the channel of a message: whatever numbers are drawn, the reactions are
/// those that `annoy_reactions` gives for them.
pub fn annoy_channel(channel: u64, ids: AnnoyedChannels) -> (r: Vec<char>)
    ensures
        exists|drawn: Seq<usize>| drawn.len() == 6 && r@ == annoy_reactions(channel, ids, drawn),
{
    let drawn = draw_six();
    let r = annoy_channel_with(channel, ids, &drawn);
    assert(drawn@.len() == 6 && r@ == annoy_reactions(channel, ids, drawn@));
    r
}

/// The two reactions on a message of the chosen user, for two drawn numbers; none on
/// a message of anyone else.
pub open spec fn attack_reactions(
    author: Seq<char>,
    attacked: Seq<char>,
    first: usize,
    second: usize,
) -> Seq<char> {
    if author == attacked {
        seq![annoying()[first as int % 11], annoying()[second as int % 11]]
    } else {
        Seq::empty()
    }
}

/// The reactions on a message of `author`, from two numbers already drawn.
pub fn personal_attack_with(author: &str, attacked: &str, first: usize, second: usize) -> (r: Vec<
    char,
>)
    ensures
        r@ == attack_reactions(author@, attacked@, first, second),
{
    let mut out: Vec<char> = Vec::new();
    if str_eq(author, attacked) {
        let icons = annoying_list();
        out.push(icons[first % 11]);
        out.push(icons[second % 11]);
        assert(out@ =~= attack_reactions(author@, attacked@, first, second));
    }
    out
}

/// Reacts to a message of the chosen user.
pub fn personal_attack(author: &str, attacked: &str) -> (r: Vec<char>)
    ensures
        exists|first: usize, second: usize|
            r@ == attack_reactions(author@, attacked@, first, second),
{
    let first = random_usize();
    let second = random_usize();
    personal_attack_with(author, attacked, first, second)
}

/// The excuse given to the chosen user for a drawn number; none to anyone else.
pub open spec fn excuse(author: Seq<char>, attacked: Seq<char>, drawn: usize) -> Option<Seq<char>> {
    if author == attacked {
        Some(annoying_message()[drawn as int % 6])
    } else {
        None
    }
}

/// The excuse for a request of `author`, from a number already drawn.
pub fn attacked_with(author: &str, attacked: &str, drawn: usize) -> (r: Option<&'static str>)
    ensures
        r.deep_view() == excuse(author@, attacked@, drawn),
{
    if str_eq(author, attacked) {
        let excuses = annoying_message_list();
        assert(annoying_message().len() == 6);
        assert(excuses.deep_view().len() == excuses@.len());
        assert(excuses.deep_view()[drawn as int % 6] == excuses@[drawn as int % 6]@);
        Some(excuses[drawn % 6])
    } else {
        None
    }
}

/// Turns a request of the chosen user down with an excuse.
pub fn attacked(author: &str, target: &str) -> (r: Option<&'static str>)
    ensures
        exists|drawn: usize| r.deep_view() == excuse(author@, target@, drawn),
{
    let drawn = random_usize();
    attacked_with(author, target, drawn)
}

/// The name under which a mentioned user is teased: the mention without its first
/// three characters, after `<@`.
pub open spec fn attacked_tag(mention: Seq<char>) -> Seq<char> {
    "<@"@ + if mention.len() >= 3 {
        mention.skip(3)
    } else {
        Seq::empty()
    }
}

/// The announcement of an attack.
pub open spec fn attack_notice(mention: Seq<char>) -> Seq<char> {
    "Prepare yourself "@ + mention + " !"@
}

/// Chooses the user to tease from a mention: hands out the name to tease under and the
/// announcement.
pub fn attack_lauch(mention: &str) -> (r: (String, String))
    ensures
        r.0@ == attacked_tag(mention@),
        r.1@ == attack_notice(mention@),
{
    let chars = chars_of(mention);
    let mut tag: Vec<char> = Vec::new();
    push_str(&mut tag, "<@");
    let ghost head = tag@;
    if chars.len() >= 3 {
        let mut i: usize = 3;
        assert(tag@ =~= head + mention@.subrange(3, 3));
        while i < chars.len()
            invariant
                3 <= i <= chars.len(),
                chars@ == mention@,
                tag@ == head + mention@.subrange(3, i as int),
            decreases chars.len() - i,
        {
            tag.push(chars[i]);
            i = i + 1;
            assert(tag@ =~= head + mention@.subrange(3, i as int));
        }
        assert(mention@.subrange(3, mention@.len() as int) =~= mention@.skip(3));
    } else {
        assert(tag@ =~= head + Seq::<char>::empty());
    }
    let mut notice: Vec<char> = Vec::new();
    push_str(&mut notice, "Prepare yourself ");
    push_str(&mut notice, mention);
    push_str(&mut notice, " !");
    assert(notice@ =~= attack_notice(mention@));
    (string_of(&tag), string_of(&notice))
}

/// The user whose fire-only messages are removed.
pub const PM: u64 = 365228504817729539;

/// The character that such messages are made of.
pub const FILTERED: char = '\u{1f525}';

/// Whether `c` is white space.
pub open spec fn is_blank(c: char) -> bool {
    ('\u{9}' <= c <= '\u{d}') || c == ' ' || c == '\u{85}' || c == '\u{a0}' || c == '\u{1680}' || (
    '\u{2000}' <= c <= '\u{200a}') || c == '\u{2028}' || c == '\u{2029}' || c == '\u{202f}' || c
        == '\u{205f}' || c == '\u{3000}'
}

/// Whether a message is removed: one of the filtered user that holds nothing but the
/// filtered character and white space.
pub open spec fn is_filtered_out(author: u64, content: Seq<char>) -> bool {
    author == PM && forall|i: int|
        0 <= i < content.len() ==> content[i] == FILTERED || is_blank(#[trigger] content[i])
}

/// Says whether a message is to be removed.
pub fn filter_outannoying_messages(author: u64, content: &str) -> (r: bool)
    ensures
        r == is_filtered_out(author, content@),
{
    if author != PM {
        return false;
    }
    let chars = chars_of(content);
    let mut i: usize = 0;
    while i < chars.len()
        invariant
            i <= chars.len(),
            chars@ == content@,
            forall|j: int| 0 <= j < i ==> content@[j] == FILTERED || is_blank(#[trigger] content@[j]),
        decreases chars.len() - i,
    {
        let c = chars[i];
        let blank = ('\u{9}' <= c && c <= '\u{d}') || c == ' ' || c == '\u{85}' || c == '\u{a0}'
            || c == '\u{1680}' || ('\u{2000}' <= c && c <= '\u{200a}') || c == '\u{2028}' || c
            == '\u{2029}' || c == '\u{202f}' || c == '\u{205f}' || c == '\u{3000}';
        if !(c == FILTERED || blank) {
            return false;
        }
        i = i + 1;
    }
    true
}

} // verus!
