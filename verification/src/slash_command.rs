//! The commands that the chat service offers in its own menu.

use vstd::prelude::*;
use crate::text::{decimal_digits, push_decimal, push_str, str_eq, string_of};

verus! {

/// A command of the menu.
#[derive(Copy, Clone, Debug, PartialEq, Eq, Structural)]
pub enum SlashCommand {
    Mom,
    MomChange,
    OfficeWeek,
    PlayingMc,
}

/// The command that a name of the menu stands for.
pub open spec fn slash_command_named(name: Seq<char>) -> Option<SlashCommand> {
    if name == "mom"@ {
        Some(SlashCommand::Mom)
    } else if name == "mom-change"@ {
        Some(SlashCommand::MomChange)
    } else if name == "office-week"@ {
        Some(SlashCommand::OfficeWeek)
    } else if name == "playing-mc"@ {
        Some(SlashCommand::PlayingMc)
    } else {
        None
    }
}

/// Tells which command of the menu was chosen.
pub fn handle_event(name: &str) -> (r: Option<SlashCommand>)
    ensures
        r == slash_command_named(name@),
{
    if str_eq(name, "mom") {
        Some(SlashCommand::Mom)
    } else if str_eq(name, "mom-change") {
        Some(SlashCommand::MomChange)
    } else if str_eq(name, "office-week") {
        Some(SlashCommand::OfficeWeek)
    } else if str_eq(name, "playing-mc") {
        Some(SlashCommand::PlayingMc)
    } else {
        None
    }
}

/// A command of the menu as it is registered: its name, what it does, and the user
/// that it asks for where it asks for one, with what is said of that user.
pub struct MenuEntry {
    pub name: &'static str,
    pub description: &'static str,
    pub user_option: Option<(&'static str, &'static str)>,
}

/// The commands of the menu, as they are registered.
pub fn set() -> (r: Vec<MenuEntry>)
    ensures
        r@.len() == 4,
        r@[0].name@ == "mom"@ && r@[0].user_option is None,
        r@[0].description@ == "Witch user mom is currenly targeted"@,
        r@[1].name@ == "mom-change"@ && r@[1].user_option is Some,
        r@[1].description@ == "Change the current user mom targeted"@,
        match r@[1].user_option {
            Some((name, description)) => name@ == "user"@ && description@
                == "Who is the new target"@,
            None => false,
        },
        r@[2].name@ == "office-week"@ && r@[2].user_option is None,
        r@[2].description@ == "Get the current week of the office"@,
        r@[3].name@ == "playing-mc"@ && r@[3].user_option is None,
        r@[3].description@ == "Get the list of users connected to minecraft"@,
        forall|i: int| 0 <= i < 4 ==> slash_command_named((#[trigger] r@[i]).name@) is Some,
{
    vec![
        MenuEntry {
            name: "mom",
            description: "Witch user mom is currenly targeted",
            user_option: None,
        },
        MenuEntry {
            name: "mom-change",
            description: "Change the current user mom targeted",
            user_option: Some(("user", "Who is the new target")),
        },
        MenuEntry {
            name: "office-week",
            description: "Get the current week of the office",
            user_option: None,
        },
        MenuEntry {
            name: "playing-mc",
            description: "Get the list of users connected to minecraft",
            user_option: None,
        },
    ]
}

/// The week of the office in the week `week` of the year: the weeks go round in threes.
pub open spec fn office_week_of(week: u32) -> nat {
    (((week + 1) % 3) + 1) as nat
}

/// What is said of the week of the office.
pub open spec fn office_week_text(week: u32) -> Seq<char> {
    "it's currently S0"@ + decimal_digits(office_week_of(week))
}

/// Says which week of the office the week `week` of the year is.
pub fn office_week(week: u32) -> (r: String)
    ensures
        r@ == office_week_text(week),
{
    let turn: u64 = ((week as u64) + 1) % 3 + 1;
    let mut out: Vec<char> = Vec::new();
    push_str(&mut out, "it's currently S0");
    push_decimal(&mut out, turn);
    assert(out@ =~= office_week_text(week));
    string_of(&out)
}

/// The names of the players, with a blank between two of them.
pub open spec fn joined(names: Seq<Seq<char>>) -> Seq<char>
    decreases names.len(),
{
    if names.len() == 0 {
        Seq::empty()
    } else if names.len() == 1 {
        names[0]
    } else {
        joined(names.drop_last()) + " "@ + names.last()
    }
}

/// Lists the players that are connected.
pub fn playing_mc(players: &Vec<String>) -> (r: String)
    ensures
        r@ == joined(players.deep_view()),
{
    let ghost names = players.deep_view();
    let mut out: Vec<char> = Vec::new();
    let mut i: usize = 0;
    assert(names.take(0) =~= Seq::<Seq<char>>::empty());
    while i < players.len()
        invariant
            i <= players.len(),
            names == players.deep_view(),
            out@ == joined(names.take(i as int)),
        decreases players.len() - i,
    {
        proof {
            assert(names.take(i as int + 1).drop_last() =~= names.take(i as int));
            assert(names.take(i as int + 1).last() == players@[i as int]@);
            if i == 0 {
                assert(names.take(1)[0] == players@[0]@);
            }
        }
        let ghost before = out@;
        if i > 0 {
            push_str(&mut out, " ");
        }
        push_str(&mut out, players[i].as_str());
        proof {
            if i == 0 {
                assert(out@ =~= players@[0]@);
            } else {
                assert(out@ =~= before + " "@ + players@[i as int]@);
            }
        }
        i = i + 1;
    }
    assert(names.take(players.len() as int) =~= names);
    string_of(&out)
}

/// How a user chosen in the menu is written in a message.
pub open spec fn chosen_user(user: Seq<char>) -> Seq<char> {
    "<@"@ + user + ">"@
}

/// Writes the user chosen in the menu as a mention.
pub fn mention_of(user: &str) -> (r: String)
    ensures
        r@ == chosen_user(user@),
{
    let mut out: Vec<char> = Vec::new();
    push_str(&mut out, "<@");
    push_str(&mut out, user);
    push_str(&mut out, ">");
    assert(out@ =~= chosen_user(user@));
    string_of(&out)
}

} // verus!
