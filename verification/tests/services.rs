use rbot_discord::airtable::{check_airtable, request_of, Record};
use rbot_discord::api::{
    from_request, get_channel_message, index, messages_of_channel, send_message,
    two_factor_deployment, webhook_from_gcp, ApiKeyError, Deployment, GCPAlert, Incident, Status,
    TWO_FACTOR_TITLE,
};
use rbot_discord::calendar::{check_calendar, WarnReason, Warnings, HOUR_PER_DAY};
use rbot_discord::commands::Registry;
use rbot_discord::connection::split_args;
use rbot_discord::credentials::Credentials;
use rbot_discord::database::{Instance, Message, User};
use rbot_discord::docker::deploy;
use rbot_discord::event::{get_chan_id, numstr_to_duration, remove_elem};
use rbot_discord::features::Features;
use rbot_discord::frontline::DirectoryWatch;
use rbot_discord::gcp_alert_struct::Root;
use rbot_discord::githooks::{branch, init, notify};
use rbot_discord::handlers::{
    block_user, commands_list, manual_send_message, modify_message, print_help, promote_user,
    registry, set_activity, Builtin,
};
use rbot_discord::mail::{check_mail, parse_rfc, received_notice, Info, MailDate};
use rbot_discord::minecraft::{
    deserialize_status, full_status_query, handshake, handshake_request,
};
use rbot_discord::monitor::{display_codes, error_code_check};
use rbot_discord::process::{decide, Decision};
use rbot_discord::role::Role;
use rbot_discord::slackimport::{import, visit_files, Message as SlackMessage};
use rbot_discord::threadcontrol::ThreadControl;

fn strings(words: &[&str]) -> Vec<String> {
    words.iter().map(|w| w.to_string()).collect()
}

#[test]
fn builtin_commands_form_a_registry() {
    let list = commands_list();
    assert_eq!(list.len(), 28);
    assert!(Registry::build(list).is_ok());
    let registry = registry();
    assert_eq!(registry.len(), 28);
    let quit = registry.find("quit").unwrap();
    assert_eq!(registry.get(quit).handler, Builtin::Quit);
    assert_eq!(registry.get(quit).permission, Role::Admin);
    let edit = registry.get(registry.find("edit").unwrap());
    assert_eq!((edit.argument_min, edit.argument_max), (2, 3));
    assert_eq!(edit.usage, "@BOT edit [<#channel>] <message_id> \"<new content>\"");
    let cat = registry.get(registry.find("cat").unwrap());
    assert_eq!((cat.permission, cat.handler), (Role::Guest, Builtin::Cat));
    assert_eq!(registry.get(registry.find("ordering").unwrap()).handler, Builtin::OrderChannels);
    assert_eq!(registry.find("ping"), None);
    let (decision, _) = decide(&registry, &strings(&["cat"]), 1, "Guest", None);
    assert_eq!(decision, Decision::Invoke { index: registry.find("cat").unwrap() });
    let (decision, _) = decide(&registry, &strings(&["quit"]), 1, "User", Some(true));
    assert_eq!(decision, Decision::Forbidden { index: quit, role: Role::User });
}

#[test]
fn help_lists_the_commands_by_name() {
    let help = print_help(&registry());
    let lines: Vec<&str> = help.lines().collect();
    assert_eq!(lines.len(), 30);
    assert_eq!(lines[0], "Available commands: ");
    assert_eq!(lines[1], "NAME => USAGE (<Args> [Optionals])| PERMISSION");
    assert_eq!(lines[2], "add => Usage: @BOT add <@user> | {User}");
    assert_eq!(lines[3], "add-project => Usage: @BOT add-project <#channel_id> <name> [codex=<codex>, client=<client>, lead=<Lead>, deadline=<Deadline>, description=<Brief projet>, contexte=<Contexte>] | {User}");
    assert_eq!(lines[29], "users => Usage: @BOT users | {Admin}");
    let mut names: Vec<&str> = lines[2..].iter().map(|l| l.split(" => ").next().unwrap()).collect();
    let shown = names.clone();
    names.sort();
    assert_eq!(shown, names);
    assert!(help.ends_with("}\n"));
}

#[test]
fn plain_handlers_answer() {
    assert_eq!(block_user("<@173013989180178432>"), (Some(173013989180178432), ":ok:".to_string()));
    assert_eq!(
        block_user("<#852815758911340565>"),
        (None, "Mismatched type, expected: User, got: Channel".to_string())
    );
    assert_eq!(set_activity("bot", "chess"), "bot is now chess !");
    assert_eq!(manual_send_message("<#852815758911340565>"), Ok(852815758911340565));
    assert_eq!(
        manual_send_message("<@173013989180178432>"),
        Err("Mismatched type, expected: Channel, got: User".to_string())
    );
    assert_eq!(modify_message(true), ":ok:");
    assert_eq!(modify_message(false), "I can only modify my own messages");
    let mut db = Instance::new();
    db.user_add(User { id: 1, discordid: 173013989180178432, role: "Guest".to_string() });
    assert_eq!(promote_user(&mut db, "<@173013989180178432>", "King"), "Role not found");
    assert_eq!(
        promote_user(&mut db, "someone", "Admin"),
        "Did not match an discord id"
    );
    assert_eq!(db.users[0].role, "Guest");
    assert_eq!(
        promote_user(&mut db, "<@173013989180178432>", "Admin"),
        "Updated 173013989180178432 to Admin"
    );
    assert_eq!(db.users[0].role, "Admin");
    assert_eq!(promote_user(&mut db, "<@173013989180178433>", "Admin"), "User not found");
}

#[test]
fn requests_are_checked_at_the_door() {
    assert_eq!(from_request(None, "k"), Err(ApiKeyError::Missing));
    assert_eq!(from_request(Some("Bearer k"), "k"), Ok(()));
    assert_eq!(from_request(Some("Bearer  k"), "k"), Err(ApiKeyError::Invalid));
    assert_eq!(from_request(Some("k"), "k"), Err(ApiKeyError::Invalid));
    assert_eq!(index(), "hello");
}

#[test]
fn messages_are_passed_on_within_limits() {
    assert_eq!(send_message("<#852815758911340565>", "hi"), Ok(852815758911340565));
    assert_eq!(send_message("<#852815758911340565>", &"x".repeat(2000)), Ok(852815758911340565));
    assert_eq!(
        send_message("<#852815758911340565>", &"x".repeat(2001)),
        Err((Status::BadRequest, "Too Long Message (2001)".to_string()))
    );
    assert_eq!(
        send_message("852815758911340565", &"x".repeat(2001)),
        Err((Status::BadRequest, "Too Long Message (2001)".to_string()))
    );
    assert_eq!(
        send_message("852815758911340565", "hi"),
        Err((Status::BadRequest, "Unable to parse channelid: 852815758911340565".to_string()))
    );
    assert_eq!(
        send_message("<@173013989180178432>", "hi"),
        Err((Status::BadRequest, "Unable to parse channelid: <@173013989180178432>".to_string()))
    );
}

#[test]
fn messages_of_a_channel_are_found() {
    let message = |id: i64, channel: i64| Message {
        id,
        author: 1,
        content: String::new(),
        channel,
        date: None,
    };
    let messages = vec![message(1, 852815758911340565), message(2, 5), message(3, 852815758911340565)];
    assert_eq!(messages_of_channel(&messages, 852815758911340565), vec![0, 2]);
    assert_eq!(messages_of_channel(&messages, 6), Vec::<usize>::new());
    assert_eq!(get_channel_message("<#852815758911340565>", &messages), Ok(vec![0, 2]));
    assert_eq!(
        get_channel_message("nowhere", &messages),
        Err("Unable to parse channelid: nowhere".to_string())
    );
}

#[test]
fn hook_texts_are_written() {
    let body = Deployment { deployment_name: "api".to_string(), ci_url: "https://ci".to_string() };
    assert_eq!(
        two_factor_deployment(&body),
        "A Github Actions want to update **api** docker image.\n\n\u{2705} Accept | \u{274c} Reject"
    );
    assert_eq!(TWO_FACTOR_TITLE, "2FD");
    let alert = GCPAlert {
        version: "1".to_string(),
        incident: Incident {
            incident_id: "i".to_string(),
            scoping_project_id: "proj".to_string(),
            url: "https://x".to_string(),
            started_at: 1,
            ended_at: 2,
            state: "open".to_string(),
            summary: "cpu high".to_string(),
            resource_type_display_name: String::new(),
            resource_display_name: String::new(),
        },
    };
    assert_eq!(
        webhook_from_gcp(&alert, "{..}"),
        "proj: cpu high\nhttps://x\n```json\n{..}\n```"
    );
    let root = Root {
        version: "1".to_string(),
        incident: rbot_discord::gcp_alert_struct::Incident {
            incident_id: String::new(),
            scoping_project_id: String::new(),
            scoping_project_number: 3,
            url: String::new(),
            started_at: 0,
            ended_at: 0,
            state: String::new(),
            summary: String::new(),
            resource_type_display_name: String::new(),
            resource_display_name: String::new(),
        },
    };
    assert_eq!(root.incident.scoping_project_number, 3);
}

#[test]
fn calendar_warnings_are_listed() {
    assert_eq!(check_calendar(&vec![]), "No warnings found timoun will be happy !!");
    let warning = |date: &str, event: Option<&str>, reason: i32| Warnings {
        name: "ann".to_string(),
        warning_date: date.to_string(),
        event_name: event.map(|e| e.to_string()),
        warning_reason: reason,
    };
    assert_eq!(
        check_calendar(&vec![
            warning("01/02/2024", Some("sprint"), 1),
            warning("02/02/2024", None, 0),
            warning("03/02/2024", Some("trip"), 2),
            warning("04/02/2024", Some("odd"), 9),
        ]),
        "You have 4 warnings:\n`01/02/2024` sprint for An event is between two month\n`02/02/2024`  for There is not 7 hours in this day\n`03/02/2024` trip for An event is on a holiday and normal day\n`04/02/2024` odd for There is not 7 hours in this day"
    );
    assert_eq!(WarnReason::from(1), WarnReason::BetweenTwoMonth);
    assert_eq!(WarnReason::from(-1), WarnReason::NotEnoughtHour);
    assert_eq!(HOUR_PER_DAY, 7);
}

#[test]
fn error_counts_are_watched() {
    assert_eq!(
        display_codes("{\"total_status_code_count\":{\"200\":5,\"500\":1}}"),
        Some("{\"200\":5,\"500\":1}".to_string())
    );
    assert_eq!(display_codes("{}"), Some("null".to_string()));
    assert_eq!(display_codes("oops"), None);
    assert_eq!(
        error_code_check(3, 5, "{\"500\":5}"),
        vec!["Error code 500 going up ! 3 -> 5".to_string(), "Codes = {\"500\":5}".to_string()]
    );
    assert!(error_code_check(5, 5, "x").is_empty());
    assert!(error_code_check(i64::MAX, 5, "x").is_empty());
    assert_eq!(error_code_check(-2, -1, "")[0], "Error code 500 going up ! -2 -> -1");
}

#[test]
fn commits_are_announced() {
    assert_eq!(branch("refs/heads/main"), "main");
    assert_eq!(branch("refs/heads/"), "");
    assert_eq!(branch("refs"), "");
    assert_eq!(
        notify("ann", "bot", "refs/heads/feature/x", "https://h/c/1"),
        "[ann/bot/feature/x]: new commit https://h/c/1"
    );
    assert!(init(Some("push")));
    assert!(!init(Some("ping")));
    assert!(!init(None));
}

#[test]
fn deployments_are_named() {
    let named = deploy("Ann", "MyBot", "Feature-X");
    assert_eq!(named.notice, "Deploying preview -> Ann/MyBot->Feature-X");
    assert_eq!(named.tarball, "https://github.com/Ann/MyBot/archive/Feature-X.tar.gz");
    assert_eq!(named.image, "mybot-feature-x");
    assert_eq!(named.dockerfile, "MyBot-Feature-X/Dockerfile");
}

#[test]
fn directories_are_watched() {
    let mut watch = DirectoryWatch::new();
    let root = strings(&["alpha", "beta"]);
    assert_eq!(watch.add_directory("gamma", &root), "I didn't find this directory in the ftp");
    assert!(watch.watched.is_empty());
    assert_eq!(watch.add_directory("alpha", &root), ":ok:");
    assert_eq!(watch.add_directory("beta", &root), ":ok:");
    assert_eq!(watch.check(&vec![3, 2]), None);
    assert_eq!(watch.watched, vec![("alpha".to_string(), 3), ("beta".to_string(), 2)]);
    assert_eq!(
        watch.check(&vec![3, 4]),
        Some("<@344498090801364993> \u{1f631} No update on alpha".to_string())
    );
    assert_eq!(watch.watched[1].1, 4);
    assert_eq!(
        watch.check(&vec![2, 4]),
        Some("<@344498090801364993> \u{1f631} No update on beta".to_string())
    );
    assert_eq!(watch.watched[0].1, 3);
    assert_eq!(watch.add_directory("alpha", &root), ":ok:");
    assert_eq!(watch.watched, vec![("alpha".to_string(), 0), ("beta".to_string(), 4)]);
}

#[test]
fn tickets_are_announced() {
    let record = Record {
        id: "rec1".to_string(),
        fields: vec![
            ("State".to_string(), "".to_string()),
            ("Requete".to_string(), "fix the door".to_string()),
            ("Requete".to_string(), "second".to_string()),
        ],
        created_time: "2020-06-16T10:13:43.000Z".to_string(),
    };
    assert_eq!(request_of(&record).map(|s| s.as_str()), Some("fix the door"));
    let bare = Record { id: "rec2".to_string(), fields: vec![], created_time: String::new() };
    assert_eq!(request_of(&bare), None);
    assert_eq!(check_airtable("fix the door"), "New ticket: fix the door");
}

#[test]
fn long_texts_are_cut() {
    let message = |text: String| SlackMessage {
        type_: "message".to_string(),
        user: "ann".to_string(),
        text,
        ts: String::new(),
    };
    assert!(visit_files(&message(String::new())).is_empty());
    assert_eq!(visit_files(&message("hi".to_string())), vec!["**ann**: hi".to_string()]);
    let cut = visit_files(&message("a".repeat(1500) + &"b".repeat(1500) + "c"));
    assert_eq!(cut.len(), 3);
    assert_eq!(cut[0], format!("**ann**: {}", "a".repeat(1500)));
    assert_eq!(cut[1], format!("**ann**: {}", "b".repeat(1500)));
    assert_eq!(cut[2], "**ann**: c");
    assert_eq!(visit_files(&message("a".repeat(1500))).len(), 1);
    assert_eq!(import(), "Started importing Slack");
}

#[test]
fn reminder_arguments_are_read() {
    assert_eq!(get_chan_id("<#555206410619584519>"), Some(555206410619584519));
    assert_eq!(get_chan_id("<#>"), None);
    assert_eq!(get_chan_id("<#"), None);
    assert_eq!(get_chan_id("<#12x>"), None);
    assert_eq!(numstr_to_duration("10"), Some(600));
    assert_eq!(numstr_to_duration("0"), Some(0));
    assert_eq!(numstr_to_duration("ten"), None);
    assert_eq!(numstr_to_duration("18446744073709551615"), None);
    let mut names = strings(&["a", "b", "a", "c"]);
    assert!(remove_elem(&mut names, "a"));
    assert_eq!(names, strings(&["b", "a", "c"]));
    assert!(!remove_elem(&mut names, "z"));
    assert_eq!(names.len(), 3);
}

#[test]
fn arguments_are_split_at_quotation_marks() {
    assert_eq!(split_args("<@1> say \"hello world\" now"), strings(&["<@1>", "say", "hello world", "now"]));
    assert_eq!(split_args("ping"), strings(&["ping"]));
    assert_eq!(split_args("a  b"), strings(&["a", "", "b"]));
    assert_eq!(split_args("\"x y\""), strings(&["", "x y", ""]));
    assert_eq!(split_args(""), strings(&[""]));
}

#[test]
fn small_values_are_made() {
    let credentials = Credentials::new();
    assert!(credentials.email.is_empty() && credentials.password.is_empty());
    assert!(credentials.domain.is_empty() && credentials.token.is_empty());
    let mut features = Features::new();
    assert!(!features.running);
    assert!(features.start());
    assert!(features.running);
    assert!(!features.start());
    let control = ThreadControl::new();
    assert!(!control.is_paused());
    control.pause();
    assert!(control.is_paused());
    let other = control.share();
    other.resume();
    assert!(!control.is_paused());
    features.thread_control.pause();
    assert!(features.thread_control.is_paused());
    features.thread_control.resume();
    assert!(!features.thread_control.is_paused());
}

fn envelope(from: &str, subject: &str, date: &str) -> (String, String, String) {
    (from.to_string(), subject.to_string(), date.to_string())
}

fn date(recent: bool, shown: &str) -> MailDate {
    MailDate { recent, shown: shown.to_string() }
}

#[test]
fn mails_change_state() {
    let mut info = Info::new();
    assert_eq!(info.mail_number, 0);
    assert_eq!(info.display_unassigned(&vec![]), "No unassigned mails.");
    assert_eq!(check_mail(0, 3), vec![1, 2, 3]);
    assert_eq!(check_mail(3, 3), Vec::<u32>::new());
    assert_eq!(check_mail(5, 0), Vec::<u32>::new());
    assert_eq!(check_mail(5, 3), Vec::<u32>::new());
    info.receive(3, vec![
        (1, envelope("a@x", "one", "d1")),
        (2, envelope("b@x", "two", "d2")),
        (3, envelope("c@x", "three", "d3")),
    ]);
    assert_eq!(info.mail_number, 3);
    assert_eq!(info.assign(9, "ann"), "Mail 9 Was not found in unassigned list.");
    assert_eq!(info.assign(2, "ann"), "Mail 2 Was assigned to ann.");
    assert_eq!(info.assign(3, "bob"), "Mail 3 Was assigned to bob.");
    assert_eq!(info.unassigned.len(), 1);
    assert_eq!(info.assigned[0], (2, envelope("b@x", "two", "d2"), "ann".to_string()));
    assert_eq!(
        info.display_unassigned(&vec![date(true, "01 Jan")]),
        "Unassigned mails:\nId: 1 | Subject: **one** | From: a@x [ 01 Jan ]\n"
    );
    assert_eq!(info.display_unassigned(&vec![date(false, "01 Jan")]), "Unassigned mails:\n");
    assert_eq!(
        info.display_assigned("all", &vec![date(true, "02 Jan"), date(true, "03 Jan")]),
        "Assigned mails:\nId: 2 | Subject: **two** | From: b@x | Assigned to ann [ 02 Jan ]\nId: 3 | Subject: **three** | From: c@x | Assigned to bob [ 03 Jan ]\n"
    );
    assert_eq!(
        info.display_assigned("bob", &vec![date(true, "02 Jan"), date(true, "03 Jan")]),
        "Assigned mails:\nId: 3 | Subject: **three** | From: c@x | Assigned to bob [ 03 Jan ]\n"
    );
    assert_eq!(
        info.display_assigned("bob", &vec![date(true, "02 Jan"), date(false, "03 Jan")]),
        "Assigned mails:\n"
    );
    assert_eq!(info.display_assigned("all", &vec![date(true, "02 Jan")]), "Assigned mails:\n");
    assert_eq!(info.resolve(1), "Mail 1 Was not found in assigned list.");
    assert_eq!(info.resolve(2), "Mail 2 Was resolved");
    assert_eq!(info.assigned.len(), 1);
    assert_eq!(
        info.display_resolved("ann", &vec![date(false, "02 Jan")]),
        "Resolved mails:\nSubject: **two** | From: b@x | Assigned to ann [ 02 Jan ]\n"
    );
    assert_eq!(info.display_resolved("bob", &vec![date(false, "02 Jan")]), "Resolved mails:\n");
    assert_eq!(
        received_notice(4, "d4", "four", "d@x"),
        "4 Email re\u{e7}u le d4 : four, envoy\u{e9} par d@x"
    );
}

#[test]
fn mail_headers_are_read() {
    let mail = "Return-Path: <a@x>\r\nDate: Tue, 16 Jun 2020 10:13:43 +0000\r\nFrom: Ann <a@x>\r\nSubject: Hello there\r\nContent-Type: multipart\r\n\r\n--sep\r\nContent-Type: text/plain\r\n\nfirst line\nsecond\n\n--sep\nignored\nDate: late\n";
    let mut date = String::new();
    let mut from = String::new();
    let mut subject = String::new();
    let body = parse_rfc(&mut date, &mut from, &mut subject, mail);
    assert_eq!(date, "Tue, 16 Jun 2020 10:13:43");
    assert_eq!(from, "Ann <a@x>");
    assert_eq!(subject, "Hello there");
    assert_eq!(body, "first linesecond");
    let mut date = "Date: kept +0000x".to_string();
    let mut from = "From: keptx".to_string();
    let mut subject = String::new();
    let body = parse_rfc(&mut date, &mut from, &mut subject, "nothing");
    assert_eq!((date.as_str(), from.as_str(), subject.as_str(), body.as_str()), ("kept", "kept", "", ""));
}

#[test]
fn server_status_is_read() {
    let status = "hostname\0A Server\0gametype\0SMP\0odd\0\u{1}player_\0\0ann\0bob\0\0";
    let read = deserialize_status(status).unwrap();
    assert_eq!(
        read.infos,
        vec![
            ("hostname".to_string(), "A Server".to_string()),
            ("gametype".to_string(), "SMP".to_string())
        ]
    );
    assert_eq!(read.players, strings(&["ann", "bob"]));
    let empty = deserialize_status("a\0b\0\u{1}player_\0\0\0\0").unwrap();
    assert_eq!(empty.infos, vec![("a".to_string(), "b".to_string())]);
    assert_eq!(empty.players, strings(&[""]));
    assert!(deserialize_status("no players here").is_none());
    assert_eq!(handshake_request(), vec![0xFE, 0xFD, 0x09, 0x00, 0x00, 0x00, 0x01]);
}

#[test]
fn server_challenge_is_read() {
    assert_eq!(handshake(&b"\x09\x00\x00\x00\x019513307\x00".to_vec()), Some(9513307));
    assert_eq!(handshake(&b"\x09\x00\x00\x00\x01-42\x00".to_vec()), Some(-42));
    assert_eq!(handshake(&b"\x09\x00\x00\x00\x01+42\x00".to_vec()), Some(42));
    assert_eq!(handshake(&b"\x09\x00\x00\x00\x012147483647\x00".to_vec()), Some(i32::MAX));
    assert_eq!(handshake(&b"\x09\x00\x00\x00\x012147483648\x00".to_vec()), None);
    assert_eq!(handshake(&b"\x09\x00\x00\x00\x01-2147483648\x00".to_vec()), Some(i32::MIN));
    assert_eq!(handshake(&b"\x09\x00\x00\x00\x01-2147483649\x00".to_vec()), None);
    assert_eq!(handshake(&b"\x09\x00\x00\x00\x01\x00".to_vec()), None);
    assert_eq!(handshake(&b"\x09\x00\x00\x00\x01".to_vec()), None);
    assert_eq!(handshake(&b"\x09\x00\x00\x00\x0112a\x00".to_vec()), None);
    let mut expected = vec![0xFE, 0xFD, 0x00, 0x00, 0x00, 0x00, 0x01];
    expected.extend_from_slice(&9513307i32.to_be_bytes());
    expected.extend_from_slice(&[0, 0, 0, 0]);
    assert_eq!(full_status_query(9513307), expected);
    for token in [0, -1, i32::MIN, i32::MAX, 256, -256] {
        assert_eq!(full_status_query(token)[7..11], token.to_be_bytes());
    }
}

#[test]
fn arguments_are_trimmed_as_the_standard_library_trims() {
    for text in [" a b ", "\u{a0}x\u{3000}", "\t\n", "", "x", " \u{2003}a  b\u{85}"] {
        let expected: Vec<String> = text.trim().split(' ').map(|w| w.to_string()).collect();
        assert_eq!(split_args(text), expected, "{:?}", text);
    }
}
