//! The fixed answers of the bot: to messages that are a known phrase, and to messages
//! that hold a known word.

use vstd::prelude::*;
use crate::text::{contains_text, occurs_at, str_eq};

verus! {

/// How the bot introduces itself.
pub const INTRODUCE: &'static str =
    "Hello, i am a BOT. i was designed to peek over you conversations and make very weird comments. i don't have any purpose yet, but you can ask me about the weather";

/// The rules of a running joke.
pub const MOM_RFC: &'static str = "```\
- It must be an insult or a degrading comment
- To be validated the phrase incrimating and changing the mom being targeted has to be writed up in the #confidentiel channel vote for
- The insult toward a mom must be dirrect
- The mom is reseted after 1 week, and can also be reseted by insulting someone else mom with another computer that was left unlocked or by buying pastries
```";

/// The phrases that the bot answers when addressed, each with its answer.
pub open spec fn tag_msg_list() -> Seq<(Seq<char>, Seq<char>)> {
    seq![
        ("ping"@, "pong"@),
        ("introduce your self"@, INTRODUCE@),
        ("introduce"@, INTRODUCE@),
        ("mom rules"@, MOM_RFC@),
        ("mom rfc"@, MOM_RFC@),
        ("weather"@, "The fuck do i know !"@),
        ("what is today weather ?"@, "The fuck do i know !"@),
        ("what is today weather"@, "The fuck do i know !"@),
        ("bad"@, "\u{1f622}"@),
        ("Bonjour !"@, "Bonsoir !"@),
        ("Bonjour"@, "Bonsoir !"@),
        ("\u{1f595}"@, "\u{1f595}"@),
    ]
}

/// The answer that a table gives to a phrase: that of the first entry with that phrase.
pub open spec fn answer_in(table: Seq<(Seq<char>, Seq<char>)>, phrase: Seq<char>) -> Option<Seq<char>>
    decreases table.len(),
{
    if table.len() == 0 {
        None
    } else if table[0].0 == phrase {
        Some(table[0].1)
    } else {
        answer_in(table.drop_first(), phrase)
    }
}

/// The table of phrases, as values.
pub fn tag_msg_table() -> (r: Vec<(&'static str, &'static str)>)
    ensures
        r.deep_view() == tag_msg_list(),
{
    let r = vec![
        ("ping", "pong"),
        ("introduce your self", INTRODUCE),
        ("introduce", INTRODUCE),
        ("mom rules", MOM_RFC),
        ("mom rfc", MOM_RFC),
        ("weather", "The fuck do i know !"),
        ("what is today weather ?", "The fuck do i know !"),
        ("what is today weather", "The fuck do i know !"),
        ("bad", "\u{1f622}"),
        ("Bonjour !", "Bonsoir !"),
        ("Bonjour", "Bonsoir !"),
        ("\u{1f595}", "\u{1f595}"),
    ];
    assert(r.deep_view() =~= tag_msg_list());
    r
}

/// Looks a phrase up in a table of phrases and answers.
pub fn answer_to(table: &Vec<(&'static str, &'static str)>, phrase: &str) -> (r: Option<
    &'static str,
>)
    ensures
        r.deep_view() == answer_in(table.deep_view(), phrase@),
{
    let ghost whole = table.deep_view();
    let mut i: usize = 0;
    assert(whole.skip(0) =~= whole);
    while i < table.len()
        invariant
            i <= table.len(),
            whole == table.deep_view(),
            answer_in(whole, phrase@) == answer_in(whole.skip(i as int), phrase@),
        decreases table.len() - i,
    {
        assert(whole.skip(i as int)[0] == whole[i as int]);
        assert(whole.skip(i as int).drop_first() =~= whole.skip(i as int + 1));
        assert(whole[i as int] == (table@[i as int].0@, table@[i as int].1@));
        if str_eq(table[i].0, phrase) {
            return Some(table[i].1);
        }
        i = i + 1;
    }
    assert(whole.skip(table.len() as int).len() == 0);
    None
}

/// The bot's answer to a request that is a known phrase: the tokens' first one is
/// looked up exactly.
pub fn process_tag_msg(message_split: &Vec<String>) -> (r: Option<&'static str>)
    ensures
        r.deep_view() == if message_split@.len() == 0 {
            None
        } else {
            answer_in(tag_msg_list(), message_split@[0]@)
        },
{
    if message_split.len() == 0 {
        return None;
    }
    let table = tag_msg_table();
    answer_to(&table, message_split[0].as_str())
}

/// The words that the bot answers with a message wherever they appear.
pub open spec fn contain_msg_list() -> Seq<(Seq<char>, Seq<char>)> {
    seq![
        ("keke"@, "https://media.giphy.com/media/26ufju9mygxXmfjos/giphy.gif"@),
        ("k\u{e9}k\u{e9}"@, "https://media.giphy.com/media/26ufju9mygxXmfjos/giphy.gif"@),
        ("bad bot"@, "\u{1f60e}"@),
        ("hello there"@, "https://i.kym-cdn.com/photos/images/newsfeed/001/475/420/c62.gif"@),
        ("ok boomer"@, "Ok millennial"@),
        (
            "fedora"@,
            "https://camo.githubusercontent.com/98c193cbace1f9ce312fdf8e1e54da111ca6fc1481a460fe7a4be75be4cc4caf/68747470733a2f2f63646e2e646973636f72646170702e636f6d2f6174746163686d656e74732f3537333533313630333730343437393734352f3930363632353736323936393431393832362f494d475f32303231313130365f3230323634332e6a7067"@,
        ),
    ]
}

/// The words that the bot answers with a reaction wherever they appear.
pub open spec fn contain_reaction_list() -> Seq<(Seq<char>, char)> {
    seq![
        ("\u{1f44a}"@, '\u{1f44a}'),
        ("licorne"@, '\u{1f984}'),
        ("leslie"@, '\u{1f984}'),
        ("max"@, '\u{1f34c}'),
        ("retard"@, '\u{231a}'),
        ("pm"@, '\u{1f431}'),
    ]
}

/// The answers of the entries of a table whose word appears in `content`, in the
/// table's order.
pub open spec fn answers_to_words<T>(table: Seq<(Seq<char>, T)>, content: Seq<char>) -> Seq<T>
    decreases table.len(),
{
    if table.len() == 0 {
        Seq::empty()
    } else {
        let rest = answers_to_words(table.drop_last(), content);
        if exists|at: int| occurs_at(content, table.last().0, at) {
            rest.push(table.last().1)
        } else {
            rest
        }
    }
}

/// One more entry of a table adds its answer exactly when its word appears.
pub proof fn lemma_answers_to_words_step<T>(table: Seq<(Seq<char>, T)>, content: Seq<char>, i: int)
    requires
        0 <= i < table.len(),
    ensures
        answers_to_words(table.take(i + 1), content) == if exists|at: int|
            occurs_at(content, table[i].0, at) {
            answers_to_words(table.take(i), content).push(table[i].1)
        } else {
            answers_to_words(table.take(i), content)
        },
{
    assert(table.take(i + 1).drop_last() =~= table.take(i));
    assert(table.take(i + 1).last() == table[i]);
}

/// The table of words answered with a message, as values.
pub fn contain_msg_table() -> (r: Vec<(&'static str, &'static str)>)
    ensures
        r.deep_view() == contain_msg_list(),
{
    let r = vec![
        ("keke", "https://media.giphy.com/media/26ufju9mygxXmfjos/giphy.gif"),
        ("k\u{e9}k\u{e9}", "https://media.giphy.com/media/26ufju9mygxXmfjos/giphy.gif"),
        ("bad bot", "\u{1f60e}"),
        ("hello there", "https://i.kym-cdn.com/photos/images/newsfeed/001/475/420/c62.gif"),
        ("ok boomer", "Ok millennial"),
        (
            "fedora",
            "https://camo.githubusercontent.com/98c193cbace1f9ce312fdf8e1e54da111ca6fc1481a460fe7a4be75be4cc4caf/68747470733a2f2f63646e2e646973636f72646170702e636f6d2f6174746163686d656e74732f3537333533313630333730343437393734352f3930363632353736323936393431393832362f494d475f32303231313130365f3230323634332e6a7067",
        ),
    ];
    assert(r.deep_view() =~= contain_msg_list());
    r
}

/// The table of words answered with a reaction, as values.
pub fn contain_reaction_table() -> (r: Vec<(&'static str, char)>)
    ensures
        r.deep_view() == contain_reaction_list(),
{
    let r = vec![
        ("\u{1f44a}", '\u{1f44a}'),
        ("licorne", '\u{1f984}'),
        ("leslie", '\u{1f984}'),
        ("max", '\u{1f34c}'),
        ("retard", '\u{231a}'),
        ("pm", '\u{1f431}'),
    ];
    assert(r.deep_view() =~= contain_reaction_list());
    r
}

/// What a message that is not addressed to the bot is answered with.
pub struct ContainReplies {
    /// The messages to send, in the order of the table of words.
    pub messages: Vec<&'static str>,
    /// The reactions to add, in the order of the table of words.
    pub reactions: Vec<char>,
}

/// Answers the known words that appear in a message that is not addressed to the bot.
pub fn process_contains(content: &str) -> (r: ContainReplies)
    ensures
        r.messages.deep_view() == answers_to_words(contain_msg_list(), content@),
        r.reactions@ == answers_to_words(contain_reaction_list(), content@),
{
    let texts = contain_msg_table();
    let glyphs = contain_reaction_table();
    let mut messages: Vec<&'static str> = Vec::new();
    let mut i: usize = 0;
    while i < texts.len()
        invariant
            i <= texts.len(),
            texts.deep_view() == contain_msg_list(),
            messages.deep_view() == answers_to_words(contain_msg_list().take(i as int), content@),
        decreases texts.len() - i,
    {
        proof {
            lemma_answers_to_words_step(contain_msg_list(), content@, i as int);
            assert(texts.deep_view()[i as int] == (texts@[i as int].0@, texts@[i as int].1@));
        }
        let ghost before = messages.deep_view();
        let hit = contains_text(content, texts[i].0);
        assert(contain_msg_list()[i as int].0 == texts@[i as int].0@);
        assert(hit == exists|at: int| occurs_at(content@, contain_msg_list()[i as int].0, at));
        if hit {
            messages.push(texts[i].1);
            assert(messages.deep_view() =~= before.push(texts@[i as int].1@));
        }
        i = i + 1;
    }
    assert(contain_msg_list().take(texts.len() as int) =~= contain_msg_list());
    let mut reactions: Vec<char> = Vec::new();
    let mut j: usize = 0;
    while j < glyphs.len()
        invariant
            j <= glyphs.len(),
            glyphs.deep_view() == contain_reaction_list(),
            reactions@ == answers_to_words(contain_reaction_list().take(j as int), content@),
        decreases glyphs.len() - j,
    {
        proof {
            lemma_answers_to_words_step(contain_reaction_list(), content@, j as int);
            assert(glyphs.deep_view()[j as int] == (glyphs@[j as int].0@, glyphs@[j as int].1));
        }
        let hit = contains_text(content, glyphs[j].0);
        assert(contain_reaction_list()[j as int].0 == glyphs@[j as int].0@);
        assert(hit == exists|at: int| occurs_at(content@, contain_reaction_list()[j as int].0, at));
        if hit {
            reactions.push(glyphs[j].1);
        }
        j = j + 1;
    }
    assert(contain_reaction_list().take(glyphs.len() as int) =~= contain_reaction_list());
    ContainReplies { messages, reactions }
}

} // verus!
