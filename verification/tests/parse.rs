use rbot_discord::parse::{
    discord_str_to_id, emoji_str_convert, get_guild, split_message_args, ChannelKind, DiscordIds,
};
use rbot_discord::text::parse_unsigned;

#[test]
fn test_discord_str_to_id() {
    assert_eq!(
        discord_str_to_id("<@256544457594241024>", None).unwrap().1,
        DiscordIds::User
    );
    assert_eq!(
        discord_str_to_id("<@173013989180178432>", None).unwrap().1,
        DiscordIds::User
    );
    assert_eq!(
        discord_str_to_id("<@173013989180178432>", None).unwrap().1,
        DiscordIds::User
    );
    assert_eq!(
        discord_str_to_id("<@1096007878160154697>", None).unwrap().1,
        DiscordIds::User
    );
    assert_eq!(
        discord_str_to_id("<@!1096007878160154697>", None).unwrap().1,
        DiscordIds::User
    );
    assert_eq!(
        discord_str_to_id("<#1096007878160154697>", None).unwrap().1,
        DiscordIds::Channel
    );
    assert_eq!(
        discord_str_to_id("<#852815758911340565>", None).unwrap().1,
        DiscordIds::Channel
    );
    assert_eq!(
        discord_str_to_id("<@&1096007878160154697>", None).unwrap().1,
        DiscordIds::Role
    );
    assert_eq!(
        discord_str_to_id("<@&1148945189935788056>", None).unwrap().1,
        DiscordIds::Role
    );
}

#[test]
fn test_split_message_args() {
    assert_eq!(
        vec![r#"test=testas"#],
        split_message_args(r#"test="testas""#)
    );
    assert_eq!(
        vec![r#"test=\"test\""#],
        split_message_args(r#"test=\"test\""#)
    );
    assert_eq!(vec!["test=test"], split_message_args("test=test"));
    assert_eq!(
        vec!["test=test jambon"],
        split_message_args("test=\"test jambon\"")
    );

    assert_eq!(
        vec![
            r#"test=test jambon"#,
            r#"dd"#,
            r#"testos=1"#,
            r#"ddd"#,
            r#"d"#,
            r#"dd"#,
            r#" d d d "#
        ],
        split_message_args(r#"test="test jambon" dd "testos=1" ddd d dd " d d d " "#)
    );
}

#[test]
fn split_single_word_is_unchanged() {
    assert_eq!(vec!["ping"], split_message_args("ping"));
}

#[test]
fn split_empty_input_gives_no_token() {
    assert!(split_message_args("").is_empty());
    assert!(split_message_args("   ").is_empty());
}

#[test]
fn split_counts_fancy_quotes_as_plain() {
    assert_eq!(
        vec!["say", "hello world"],
        split_message_args("say \u{201c}hello world\u{201d}")
    );
    assert_eq!(
        vec!["a b"],
        split_message_args("\u{ab}a b\u{bb}")
    );
}

#[test]
fn split_survives_unbalanced_quotes() {
    assert_eq!(vec!["abc", "def"], split_message_args("\"abc def"));
}

#[test]
fn discord_id_number_is_read() {
    assert_eq!(
        discord_str_to_id("<#852815758911340565>", Some(DiscordIds::Channel)),
        Ok((852815758911340565, DiscordIds::Channel))
    );
}

#[test]
fn discord_id_errors() {
    assert_eq!(
        discord_str_to_id("hello", None),
        Err("Did not match an discord id".to_string())
    );
    assert_eq!(
        discord_str_to_id("<@173013989180178432>", Some(DiscordIds::Channel)),
        Err("Mismatched type, expected: Channel, got: User".to_string())
    );
    assert_eq!(
        discord_str_to_id("<#852815758911340565>", Some(DiscordIds::Message)),
        Err("Mismatched type, expected: Message, got: Channel".to_string())
    );
    // 24 digits match the pattern and write no 64-bit number
    assert_eq!(
        discord_str_to_id("<@999999999999999999999999>", None),
        Err("Did not match an discord id".to_string())
    );
}

#[test]
fn emoji_parts_are_read() {
    assert_eq!(
        emoji_str_convert("<:pepe_cucumber:887736509292228668>"),
        Some((false, "pepe_cucumber".to_string(), "887736509292228668".to_string()))
    );
    assert_eq!(
        emoji_str_convert("<a:dance:887736509292228668>"),
        Some((true, "dance".to_string(), "887736509292228668".to_string()))
    );
    assert_eq!(emoji_str_convert(":smile:"), None);
}

#[test]
fn group_of_a_command_is_found() {
    let main = 339372728366923776;
    assert_eq!(get_guild(ChannelKind::Guild(7), main, None), Ok(7));
    assert_eq!(get_guild(ChannelKind::Guild(7), main, Some(&"9".to_string())), Ok(7));
    assert_eq!(get_guild(ChannelKind::Private, main, None), Ok(main));
    assert_eq!(get_guild(ChannelKind::Private, main, Some(&"464779118857420811".to_string())), Ok(464779118857420811));
    assert_eq!(
        get_guild(ChannelKind::Private, main, Some(&"home".to_string())),
        Err("Invalid guild id".to_string())
    );
    assert_eq!(
        get_guild(ChannelKind::Other, main, None),
        Err("This doesn't work in this channel".to_string())
    );
}

#[test]
fn unsigned_numbers_are_read() {
    for text in ["0", "7", "+7", "007", "18446744073709551615", "18446744073709551616", "", "+", "-1", "1 ", "++1", "\u{661}"] {
        assert_eq!(parse_unsigned(text), text.parse::<u64>().ok(), "{:?}", text);
    }
}
