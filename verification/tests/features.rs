use rbot_discord::anyone::{anyone, get_random_user, get_random_user_with, Member};
use rbot_discord::archivage::{
    archive_activity, check_channels_activity, guild_chanels_archivage, ChannelActivity,
};
use rbot_discord::emoji::{add, emoji_steal, extension, picture_data};
use rbot_discord::events::{
    check_events, delay_from_captures, remind_me, trigger_date, Delay,
};
use rbot_discord::funny::{get_cat_pic, mom_change_cmdless, unquote, which_mom_cmdless, MomChange};
use rbot_discord::gemini::{
    question, response_text, Candidate, Content, GeminiBody, GeminiResult, Part,
};
use rbot_discord::invite_action::{
    apply_create_argument, invite_code, on_new_member_check, parse_create_argument, UsedInvite,
};
use rbot_discord::ordering::{
    guild_chanels_ordering, ordering_channels_type, ordering_channels_type_apply, ChannelType,
    GuildChannel,
};
use rbot_discord::parse::DiscordIds;
use rbot_discord::project_manager::{
    bottom_list_current, check_containing, check_subscribe, check_subscribe_bottom_list,
    create_read_permission, delete_previous_bottom_message, list_projects, project_creation_args,
    project_init, project_sheet, MemberChoice, ProjectArgs, ReadState,
};
use rbot_discord::renaming::{member_not_found, rename};
use rbot_discord::slash_command::{
    handle_event, mention_of, office_week, playing_mc, SlashCommand,
};
use rbot_discord::database::{Event, Instance, Project, Storage};
use rbot_discord::text::remove_all;
use chrono::Datelike;

fn strings(words: &[&str]) -> Vec<String> {
    words.iter().map(|w| w.to_string()).collect()
}

#[test]
fn delays_are_read() {
    assert_eq!(remind_me("10m", "tea"), Ok(Delay::Minutes(10)));
    assert_eq!(remind_me("1minute", "tea"), Ok(Delay::Minutes(1)));
    assert_eq!(remind_me("90minutes", "tea"), Ok(Delay::Minutes(90)));
    assert_eq!(remind_me("2h", "tea"), Ok(Delay::Hours(2)));
    assert_eq!(remind_me("10hours", "tea"), Ok(Delay::Hours(10)));
    assert_eq!(remind_me("5days", "tea"), Ok(Delay::Days(5)));
    assert_eq!(remind_me("9999d", "tea"), Ok(Delay::Days(9999)));
    assert_eq!(remind_me("1d09:30", "tea"), Ok(Delay::DaysAt { days: 1, hour: 9, minute: 30 }));
    assert_eq!(remind_me("0d18h", "tea"), Ok(Delay::DaysAt { days: 0, hour: 18, minute: 0 }));
    assert_eq!(remind_me("2days07h05", "tea"), Ok(Delay::DaysAt { days: 2, hour: 7, minute: 5 }));
}

#[test]
fn bad_delays_are_refused() {
    let invalid = Err("the time parameter is invalid".to_string());
    assert_eq!(remind_me("soon", "tea"), invalid);
    assert_eq!(remind_me("10", "tea"), invalid);
    assert_eq!(remind_me("10000m", "tea"), invalid);
    assert_eq!(remind_me("10m ", "tea"), invalid);
    assert_eq!(remind_me("1d25:00", "tea"), invalid);
    assert_eq!(remind_me("1d10:60", "tea"), invalid);
    assert_eq!(
        remind_me("10m", &"x".repeat(1901)),
        Err("Your message is too long".to_string())
    );
    assert_eq!(remind_me("10m", &"x".repeat(1900)), Ok(Delay::Minutes(10)));
    assert_eq!(remind_me("soon", &"x".repeat(1901)), invalid);
    let no_unit = Some(vec![Some("10".to_string()), Some("10".to_string())]);
    assert_eq!(delay_from_captures(&no_unit), Err("missing time denominator".to_string()));
    assert_eq!(delay_from_captures(&None), invalid);
}

#[test]
fn due_moments_are_computed() {
    assert_eq!(trigger_date(1_000, Delay::Minutes(10)), Some(1_600));
    assert_eq!(trigger_date(1_000, Delay::Hours(2)), Some(8_200));
    assert_eq!(trigger_date(1_000, Delay::Days(1)), Some(87_400));
    assert_eq!(trigger_date(i64::MAX, Delay::Minutes(1)), None);
    // 2021-07-01 12:00:00 UTC is 14:00 in Paris; 09:30 in Paris is 07:30 UTC
    let noon = 1_625_140_800;
    assert_eq!(
        trigger_date(noon, Delay::DaysAt { days: 0, hour: 9, minute: 30 }),
        Some(noon - 16_200)
    );
    assert_eq!(
        trigger_date(noon, Delay::DaysAt { days: 2, hour: 14, minute: 0 }),
        Some(noon + 172_800)
    );
    // 2021-01-15 12:00:00 UTC is 13:00 in Paris
    let winter = 1_610_712_000;
    assert_eq!(
        trigger_date(winter, Delay::DaysAt { days: 0, hour: 13, minute: 0 }),
        Some(winter)
    );
    // the clocks of Paris skipped 02:30 on 2021-03-28
    let spring = 1_616_929_200;
    assert_eq!(trigger_date(spring, Delay::DaysAt { days: 0, hour: 2, minute: 30 }), None);
}

#[test]
fn due_reminders_are_found() {
    let event = |id: i32, author: i64, trigger_date: i64| Event {
        id,
        author,
        content: format!("note {}", id),
        channel: 77,
        trigger_date,
    };
    let events = vec![event(1, 5, 100), event(2, -1, 200), event(3, 6, 150)];
    let due = check_events(&events, 151);
    assert_eq!(due.len(), 2);
    assert_eq!((due[0].event_id, due[0].channel, due[0].text.as_str()), (1, 77, "<@5> note 1"));
    assert_eq!((due[1].event_id, due[1].text.as_str()), (3, "<@6> note 3"));
    assert!(check_events(&events, 100).is_empty());
    let late = check_events(&events, 201);
    assert_eq!(late[1].text, "<@18446744073709551615> note 2");
}

#[test]
fn project_arguments_are_read() {
    let args = strings(&["atlas", "codex=#P42", "lead=Ann", "codex=#P43", "description=a=b"]);
    let read = project_creation_args(&args).unwrap();
    assert_eq!(read.name.as_deref(), Some("atlas"));
    assert_eq!(read.codex.as_deref(), Some("#P43"));
    assert_eq!(read.lead.as_deref(), Some("Ann"));
    assert_eq!(read.description.as_deref(), Some("a=b"));
    assert_eq!(read.client, None);
    let late_name = strings(&["client=", "atlas"]);
    let read = project_creation_args(&late_name).unwrap();
    assert_eq!((read.name.as_deref(), read.client.as_deref()), (Some("atlas"), Some("")));
    let err = |words: &[&str]| project_creation_args(&strings(words)).unwrap_err();
    assert_eq!(err(&["atlas", "colour=red"]), "Invalid argument colour=red");
    assert_eq!(err(&["atlas", "=red"]), "Invalid argument =red");
    assert_eq!(err(&["atlas", "titan"]), "Unexpected argument titan");
    assert_eq!(err(&["codex=1"]), "Missing name.");
    assert_eq!(err(&[]), "Missing name.");
    assert_eq!(err(&["colour=red", "atlas", "titan"]), "Invalid argument colour=red");
}

#[test]
fn project_sheet_is_written() {
    let described = ProjectArgs {
        name: Some("atlas".to_string()),
        codex: None,
        client: Some("ACME".to_string()),
        lead: None,
        deadline: None,
        description: Some("maps".to_string()),
        contexte: None,
    };
    assert_eq!(
        project_sheet(780106716837969951, "01/02/2024", &described, "ann"),
        "Cr\u{e9}ation de <#780106716837969951>.\n\n**Fiche de projet**\n---\n**Date de cr\u{e9}ation** : 01/02/2024\n**Client** : ACME\n**Codex** : #PXXX\n**Lead projet** : ann\n**Deadline (si applicable)** : N/A\n**Brief projet** : maps\n**Contexte projet** : N/A\n  "
    );
}

#[test]
fn members_are_let_in_and_out() {
    assert_eq!(create_read_permission(7, ReadState::Allow), "Added <@7> Welcome !");
    assert_eq!(create_read_permission(7, ReadState::Deny), "Removed <@7>");
    assert!(matches!(
        check_containing("ann", &vec![]),
        MemberChoice::Answer(t) if t == "Didn't find any user with ann in their name"
    ));
    assert!(matches!(check_containing("ann", &vec![(5, "anna".to_string())]), MemberChoice::Allow(5)));
    assert!(matches!(
        check_containing("ann", &vec![(5, "anna".to_string()), (6, "hannah".to_string())]),
        MemberChoice::Answer(t) if t == "Found too many users with this name: ann,\n found: anna, hannah, "
    ));
}

#[test]
fn invitation_arguments_are_read() {
    let mut role = None;
    let mut channel = None;
    assert_eq!(parse_create_argument("<@&1096007878160154697>", &mut role, &mut channel), Ok(()));
    assert_eq!((role, channel), (Some(1096007878160154697), None));
    assert_eq!(
        parse_create_argument("<@&1148945189935788056>", &mut role, &mut channel),
        Err("Role was already specified".to_string())
    );
    assert_eq!(parse_create_argument("<#852815758911340565>", &mut role, &mut channel), Ok(()));
    assert_eq!((role, channel), (Some(1096007878160154697), Some(852815758911340565)));
    assert_eq!(
        parse_create_argument("<#852815758911340565>", &mut role, &mut channel),
        Err("Channel was already specified".to_string())
    );
    assert_eq!(
        parse_create_argument("<@173013989180178432>", &mut role, &mut channel),
        Err("Id provided should be a Channel or a Role".to_string())
    );
    assert_eq!(
        parse_create_argument("role", &mut role, &mut channel),
        Err("Did not match an discord id".to_string())
    );
    let mut none = None;
    let mut other = None;
    assert_eq!(
        apply_create_argument(Ok((u64::MAX, DiscordIds::Role)), &mut none, &mut other),
        Ok(())
    );
    assert_eq!((none, other), (Some(-1), None));
}

#[test]
fn invitation_codes_are_read() {
    assert_eq!(invite_code("https://discord.gg/abcdEFGH"), Ok("abcdEFGH".to_string()));
    assert_eq!(invite_code("abcdEFGH"), Ok("abcdEFGH".to_string()));
    assert_eq!(invite_code("abc"), Err("Invite code: abc, isn't valid".to_string()));
    assert_eq!(
        invite_code("https://discord.gg/abcdEFGHI"),
        Err("Invite code: abcdEFGHI, isn't valid".to_string())
    );
    assert_eq!(remove_all("aXbXXc", "X"), "abc");
    assert_eq!(remove_all("aaa", "aa"), "a");
    assert_eq!(remove_all("abc", ""), "abc");
    assert_eq!(remove_all("", "x"), "");
}

#[test]
fn used_invitation_is_told() {
    assert_eq!(on_new_member_check(&vec![0, 0, 1, 0]), UsedInvite::Single(2));
    assert_eq!(on_new_member_check(&vec![0, 0, 0]), UsedInvite::Unknown);
    assert_eq!(on_new_member_check(&vec![]), UsedInvite::Unknown);
    assert_eq!(on_new_member_check(&vec![1, 0, 1]), UsedInvite::Ambiguous);
    assert_eq!(on_new_member_check(&vec![0, 2]), UsedInvite::Ambiguous);
    assert_eq!(on_new_member_check(&vec![1, -3, 0]), UsedInvite::Single(0));
}

fn channel(id: u64, name: &str, kind: ChannelType, parent_id: Option<u64>, position: i64) -> GuildChannel {
    GuildChannel { id, name: name.to_string(), kind, parent_id, position }
}

#[test]
fn channels_are_ordered_by_name() {
    let channels = vec![
        channel(1, "zebra", ChannelType::Text, Some(9), 0),
        channel(2, "alpha", ChannelType::Text, Some(9), 1),
        channel(3, "voice", ChannelType::Voice, Some(9), 0),
        channel(4, "mango", ChannelType::Text, Some(9), 1),
        channel(5, "other", ChannelType::Text, Some(8), 0),
        channel(6, "alpha", ChannelType::Text, Some(9), 7),
        channel(7, "loose", ChannelType::Text, None, 0),
    ];
    let (display, ids) = ordering_channels_type(&channels, ChannelType::Text, 9);
    assert_eq!(ids, vec![2, 6, 4, 1]);
    assert_eq!(display, "[alpha] 1 => 0\n[alpha] 7 => 1\n[mango] 1 => 2\n[zebra] 0 => 3\n");
    let (display, ids) = ordering_channels_type(&channels, ChannelType::Voice, 9);
    assert_eq!((display.as_str(), ids), ("", vec![3]));
    let (display, ids) = ordering_channels_type(&channels, ChannelType::Text, 0);
    assert_eq!((display.as_str(), ids), ("", vec![7]));
    let plan = guild_chanels_ordering(&channels, 9).unwrap();
    assert_eq!(
        plan.preview,
        "Order prevision:\nTexts:\n[alpha] 1 => 0\n[alpha] 7 => 1\n[mango] 1 => 2\n[zebra] 0 => 3\n\nVoices:\n"
    );
    assert_eq!((plan.texts, plan.voices), (vec![2, 6, 4, 1], vec![3]));
    assert!(guild_chanels_ordering(&channels, 8).is_none());
    assert_eq!(
        ordering_channels_type_apply(&vec![(2, 1), (6, 1), (4, 2), (1, -5)]),
        vec![(2, 0), (1, 3)]
    );
}

#[test]
fn names_are_compared_character_by_character() {
    let channels = vec![
        channel(1, "b", ChannelType::Text, None, 0),
        channel(2, "ab", ChannelType::Text, None, 0),
        channel(3, "a", ChannelType::Text, None, 0),
        channel(4, "B", ChannelType::Text, None, 0),
        channel(5, "\u{e9}", ChannelType::Text, None, 0),
        channel(6, "", ChannelType::Text, None, 0),
    ];
    let (_, ids) = ordering_channels_type(&channels, ChannelType::Text, 0);
    let mut names: Vec<&str> = channels.iter().map(|c| c.name.as_str()).collect();
    names.sort();
    let sorted: Vec<&str> =
        ids.iter().map(|id| channels[(*id - 1) as usize].name.as_str()).collect();
    assert_eq!(sorted, names);
    assert_eq!(ids, vec![6, 4, 3, 2, 1, 5]);
}

#[test]
fn quiet_channels_are_found() {
    let activity = |id: u64, name: &str, last: Option<i32>| ChannelActivity {
        id,
        name: name.to_string(),
        last_message: last.map(|day| (day, format!("day {}", day))),
    };
    let channels = vec![
        activity(1, "old", Some(700)),
        activity(2, "edge", Some(970)),
        activity(3, "fresh", Some(999)),
        activity(4, "empty", None),
        activity(5, "older", Some(969)),
    ];
    let (display, ids) = check_channels_activity(&channels, 1000);
    assert_eq!(ids, vec![1, 5]);
    assert_eq!(display, "[old] last message: day 700\n[older] last message: day 969\n");
    let (preview, ids) = guild_chanels_archivage(&channels, 1000).unwrap();
    assert_eq!(
        preview,
        "Unactive channels to move to archives:\n[old] last message: day 700\n[older] last message: day 969\n"
    );
    assert_eq!(ids, vec![1, 5]);
    assert!(guild_chanels_archivage(&channels, 730).is_none());
    assert!(archive_activity(Some(5), 5));
    assert!(!archive_activity(Some(6), 5));
    assert!(!archive_activity(None, 5));
    let far = vec![activity(1, "far", Some(i32::MIN))];
    assert_eq!(check_channels_activity(&far, i32::MAX).1, vec![1]);
}

#[test]
fn emoji_sources_are_found() {
    let found = add("take <:pepe_cucumber:887736509292228668> please").unwrap();
    assert_eq!(
        (found.animated, found.name.as_str(), found.url.as_str()),
        (false, "pepe_cucumber", "https://cdn.discordapp.com/emojis/887736509292228668.png?size=128")
    );
    let moving = add("<a:dance:887736509292228668>").unwrap();
    assert_eq!(moving.url, "https://cdn.discordapp.com/emojis/887736509292228668.gif?size=128");
    assert_eq!(add("none").unwrap_err(), "I am not able to get this emoji");
    assert_eq!(emoji_steal(None).unwrap_err(), "This message is not a reply");
    assert_eq!(emoji_steal(Some("none")).unwrap_err(), "I am not able to get this emoji");
    assert!(emoji_steal(Some("<a:dance:887736509292228668>")).is_ok());
    assert_eq!(extension(true), "gif");
    assert_eq!(picture_data(false, &b"hello world".to_vec()), "data:image/png;base64,aGVsbG8gd29ybGQ=");
    assert_eq!(picture_data(true, &vec![]), "data:image/gif;base64,");
    assert_eq!(picture_data(true, &vec![0xff, 0xfe]), "data:image/gif;base64,//4=");
}

#[test]
fn menu_commands_are_told_apart() {
    assert_eq!(handle_event("mom"), Some(SlashCommand::Mom));
    assert_eq!(handle_event("mom-change"), Some(SlashCommand::MomChange));
    assert_eq!(handle_event("office-week"), Some(SlashCommand::OfficeWeek));
    assert_eq!(handle_event("playing-mc"), Some(SlashCommand::PlayingMc));
    assert_eq!(handle_event("Mom"), None);
    let menu = rbot_discord::slash_command::set();
    assert_eq!(menu.iter().map(|e| e.name).collect::<Vec<_>>(), vec!["mom", "mom-change", "office-week", "playing-mc"]);
    assert_eq!(menu[1].user_option, Some(("user", "Who is the new target")));
    assert_eq!(menu[0].description, "Witch user mom is currenly targeted");
    assert_eq!(office_week(1), "it's currently S03");
    assert_eq!(office_week(2), "it's currently S01");
    assert_eq!(office_week(3), "it's currently S02");
    assert_eq!(office_week(53), "it's currently S01");
    assert_eq!(office_week(u32::MAX), "it's currently S02");
    assert_eq!(playing_mc(&strings(&["ann", "bob", "cy"])), "ann bob cy");
    assert_eq!(playing_mc(&strings(&["ann"])), "ann");
    assert_eq!(playing_mc(&vec![]), "");
    assert_eq!(mention_of("173013989180178432"), "<@173013989180178432>");
}

fn stored(id: i32, datatype: i64, data: &str) -> Storage {
    Storage { id, datatype, dataid: None, data: data.to_string(), date: None }
}

#[test]
fn turns_are_told_and_changed() {
    let mut db = Instance::new();
    assert_eq!(which_mom_cmdless(&db), "Nobody is in trouble for now...");
    assert_eq!(
        mom_change_cmdless(&db, "<@5>"),
        (MomChange::Add, "It's your momas turn yourself <@5> !".to_string())
    );
    db.storage_add(stored(3, 1, "list"));
    db.storage_add(stored(4, 0, "<@5>"));
    db.storage_add(stored(5, 0, "<@6>"));
    assert_eq!(which_mom_cmdless(&db), "It's currently <@5> mom's");
    assert_eq!(mom_change_cmdless(&db, "<@7>").0, MomChange::Update(4));
}

#[test]
fn cat_pictures_are_read() {
    assert_eq!(
        get_cat_pic("[{\"id\":\"a\",\"url\":\"https://cdn2.thecatapi.com/images/a1.jpg\"}]"),
        Some("https://cdn2.thecatapi.com/images/a1.jpg".to_string())
    );
    assert_eq!(get_cat_pic("[]"), Some("ul".to_string()));
    assert_eq!(get_cat_pic("not json"), None);
    assert_eq!(unquote("\"x\""), "x");
    assert_eq!(unquote("\"\""), "");
    assert_eq!(unquote("a"), "");
    assert_eq!(unquote(""), "");
}

#[test]
fn answers_of_the_language_service_are_read() {
    let part = |t: &str| Part { text: t.to_string() };
    let candidate = |parts: Vec<Part>| Candidate {
        content: Content { parts, role: "model".to_string() },
    };
    let results = vec![
        GeminiResult { candidates: vec![candidate(vec![part("Once "), part("upon ")]), candidate(vec![])] },
        GeminiResult { candidates: vec![] },
        GeminiResult { candidates: vec![candidate(vec![part("a time")])] },
    ];
    assert_eq!(response_text(&results), "Once upon a time");
    assert_eq!(response_text(&vec![]), "");
    let body = GeminiBody::new("why?");
    assert_eq!(body.contents.len(), 1);
    assert_eq!(body.contents[0].role, "user");
    assert_eq!(body.contents[0].parts[0].text, "why?");
    assert_eq!((body.max_output_tokens, body.top_k, body.top_p), (1900, 32, 1));
    assert_eq!(question(&strings(&["ask", "why", "is", "it"])), "why is it");
    assert_eq!(question(&strings(&["ask"])), "");
    assert_eq!(question(&vec![]), "");
}

#[test]
fn nicknames_are_checked() {
    assert_eq!(rename(&"x".repeat(32)), None);
    assert_eq!(rename(&"x".repeat(33)), Some("The new nickname is too long.".to_string()));
    assert_eq!(rename(&"\u{e9}".repeat(17)), Some("The new nickname is too long.".to_string()));
    assert_eq!(member_not_found(42, "home"), "User 42 not found in guild: home");
}

#[test]
fn a_member_is_picked() {
    let members = vec![
        Member { id: 1, roles: vec![5] },
        Member { id: 2, roles: vec![7, 9] },
        Member { id: 3, roles: vec![] },
        Member { id: 4, roles: vec![9] },
    ];
    assert_eq!(get_random_user_with(&members, 9, 0), Some(1));
    assert_eq!(get_random_user_with(&members, 9, 1), Some(3));
    assert_eq!(get_random_user_with(&members, 9, 6), Some(1));
    assert_eq!(get_random_user_with(&members, 8, 6), None);
    assert_eq!(get_random_user(&members, 5), Some(0));
    assert_eq!(get_random_user(&members, 8), None);
    let picked = get_random_user(&members, 9).unwrap();
    assert!(picked == 1 || picked == 3);
    assert_eq!(anyone(7, None), "<@7> is the chosen one");
    assert_eq!(anyone(7, Some("your turn")), "<@7> your turn");
}

#[test]
fn project_channels_are_found() {
    let channels = vec![
        channel(1, "atlas", ChannelType::Text, Some(9), 0),
        channel(2, "news", ChannelType::Text, Some(9), 1),
        channel(3, "talk", ChannelType::Voice, Some(9), 0),
        channel(4, "loose", ChannelType::Text, None, 0),
        channel(5, "titan", ChannelType::Text, Some(9), 2),
        channel(6, "other", ChannelType::Text, Some(8), 0),
    ];
    assert_eq!(list_projects(&channels, 9, 2), vec![0, 4]);
    assert_eq!(list_projects(&channels, 9, 99), vec![0, 1, 4]);
    assert!(list_projects(&channels, 7, 2).is_empty());
    assert_eq!(project_init(5, 5), None);
    assert_eq!(project_init(5, 6), Some(":ok:"));
}

#[test]
fn project_list_is_written() {
    let numbers: Vec<String> = ["0\u{fe0f}\u{20e3}", "1\u{fe0f}\u{20e3}"].iter().map(|n| n.to_string()).collect();
    assert_eq!(
        bottom_list_current(&vec![10, 20, 30], &numbers),
        (
            "0\u{fe0f}\u{20e3}\t**__<#10>__**\n1\u{fe0f}\u{20e3}\t**__<#20>__**\n".to_string(),
            "10,20,30".to_string()
        )
    );
    assert_eq!(bottom_list_current(&vec![], &numbers), (String::new(), String::new()));
    assert_eq!(bottom_list_current(&vec![7], &numbers).1, "7");
}

#[test]
fn subscriptions_find_the_project_channel() {
    let project = |id: i32, message_id: i64, channel_id: i64| Project {
        id,
        message_id,
        channel_id,
        codex: String::new(),
        client: String::new(),
        lead: String::new(),
        deadline: String::new(),
        description: String::new(),
        contexte: String::new(),
        created_at: std::time::SystemTime::UNIX_EPOCH,
        pinned_message_id: None,
    };
    let mut db = Instance::new();
    db.project_add(project(1, 100, 200));
    db.project_add(project(2, 101, 0));
    db.project_add(project(3, 100, 300));
    db.project_add(project(4, 102, -5));
    assert_eq!(check_subscribe(&db, 100), Some(200));
    assert_eq!(check_subscribe(&db, 101), None);
    assert_eq!(check_subscribe(&db, 102), None);
    assert_eq!(check_subscribe(&db, 103), None);
}

#[test]
fn reactions_on_the_project_list_pick_a_channel() {
    let numbers: Vec<String> = ["zero", "one", "two"].iter().map(|n| n.to_string()).collect();
    assert_eq!(check_subscribe_bottom_list("10,20,30", &numbers, "one"), Some("20".to_string()));
    assert_eq!(check_subscribe_bottom_list("10,20,30", &numbers, "zero"), Some("10".to_string()));
    assert_eq!(check_subscribe_bottom_list("10,20", &numbers, "two"), None);
    assert_eq!(check_subscribe_bottom_list("10,20,30", &numbers, "three"), None);
    assert_eq!(check_subscribe_bottom_list("", &numbers, "zero"), Some(String::new()));
    assert_eq!(check_subscribe_bottom_list("10,,30", &numbers, "one"), Some(String::new()));
}

#[test]
fn stored_project_lists_are_taken_out() {
    let mut db = Instance::new();
    db.storage_add(stored(1, 1, "10,20"));
    db.storage_add(stored(2, 0, "<@5>"));
    db.storage_add(stored(3, 1, "30"));
    db.storage_add(stored(4, 2, ""));
    let gone = delete_previous_bottom_message(&mut db);
    assert_eq!(gone.iter().map(|s| s.id).collect::<Vec<_>>(), vec![1, 3]);
    assert_eq!(db.storage.iter().map(|s| s.id).collect::<Vec<_>>(), vec![2, 4]);
    assert!(delete_previous_bottom_message(&mut db).is_empty());
    assert_eq!(db.storage.len(), 2);
}

#[test]
fn test_office_week() {
    let week = chrono::Utc::now().iso_week().week();
    let month = (week + 1) % 3 + 1;
    assert_eq!(office_week(week), format!("it's currently S0{}", month));
}

#[test]
fn test_tz() {
    let now = chrono::Utc::now().timestamp();
    let at_ten = trigger_date(now, Delay::DaysAt { days: 0, hour: 10, minute: 0 });
    let at_ten = at_ten.expect("ten o'clock exists on every day in Paris");
    assert!((at_ten - now).abs() < 24 * 3600);
    assert_eq!((at_ten - now % 60) % 900, 0);
}
