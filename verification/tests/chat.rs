use rbot_discord::annoy::{
    annoy_channel, annoy_channel_with, attack_lauch, attacked, attacked_with, draw,
    filter_outannoying_messages, personal_attack, personal_attack_with, AnnoyedChannels,
};
use rbot_discord::commands::{
    CallBackParams, CallbackReturn, Command, Handler as CommandHandler, MessageEvent, Registry,
};
use rbot_discord::deployment::ValidationEmoji;
use rbot_discord::eventhandler::{
    message, message_update, reaction_add, reaction_remove, Handler, ReactionPlan, UpdatePlan,
};
use rbot_discord::process::{
    mentions_bot, process_message, process_message_with, Action, Decision, Draws, Surroundings,
};
use rbot_discord::replies::{process_contains, process_tag_msg, INTRODUCE, MOM_RFC};
use rbot_discord::role::Role;

const BOT: u64 = 555206410619584519;
const IDS: AnnoyedChannels = AnnoyedChannels { herdingchatte: 10, cybergod: 20, testbot: 30 };

struct Echo;

impl CommandHandler for Echo {
    fn execute(&self, params: CallBackParams<'_>) -> CallbackReturn {
        Ok(Some(format!("{}:{}", params.args.join("|"), params.message.author_id)))
    }
}

fn echo_registry() -> Registry<Echo> {
    let commands = vec![Command {
        name: "echo".to_string(),
        handler: Echo,
        argument_min: 0,
        argument_max: 2,
        channel: None,
        usage: "@BOT echo".to_string(),
        permission: Role::User,
    }];
    match Registry::build(commands) {
        Ok(registry) => registry,
        Err(e) => panic!("registry refused: {:?}", e),
    }
}

fn event(content: &str, channel_id: u64, author_id: u64) -> MessageEvent {
    MessageEvent { content: content.to_string(), author_id, channel_id, message_id: 1 }
}

fn around<'a>(author: &'a str, stored: &'a str) -> Surroundings<'a> {
    Surroundings {
        bot_id: BOT,
        blocked: false,
        author_name: author,
        attacked: "victim",
        stored_role: stored,
        membership: None,
        annoyed: IDS,
    }
}

fn draws(active: usize) -> Draws {
    Draws { attack: (0, 12), annoy: [active, 1, active, 2, active, 3], excuse: 7 }
}

fn texts(actions: &[Action]) -> Vec<String> {
    actions.iter().map(|a| format!("{:?}", a)).collect()
}

#[test]
fn known_phrases_are_answered() {
    let tokens = |w: &str| vec![w.to_string(), "more".to_string()];
    assert_eq!(process_tag_msg(&tokens("ping")), Some("pong"));
    assert_eq!(process_tag_msg(&tokens("introduce")), Some(INTRODUCE));
    assert_eq!(process_tag_msg(&tokens("mom rfc")), Some(MOM_RFC));
    assert_eq!(process_tag_msg(&tokens("Bonjour")), Some("Bonsoir !"));
    assert_eq!(process_tag_msg(&tokens("bad")), Some("\u{1f622}"));
    assert_eq!(process_tag_msg(&tokens("Ping")), None);
    assert_eq!(process_tag_msg(&vec![]), None);
    assert!(MOM_RFC.starts_with("```- It must be an insult"));
    assert!(MOM_RFC.ends_with("pastries\n```"));
}

#[test]
fn known_words_are_answered_in_table_order() {
    let found = process_contains("ok boomer, said max the licorne about keke");
    assert_eq!(
        found.messages,
        vec!["https://media.giphy.com/media/26ufju9mygxXmfjos/giphy.gif", "Ok millennial"]
    );
    assert_eq!(found.reactions, vec!['\u{1f984}', '\u{1f34c}']);
    let none = process_contains("nothing here");
    assert!(none.messages.is_empty());
    assert!(none.reactions.is_empty());
    let both = process_contains("leslie la licorne");
    assert_eq!(both.reactions, vec!['\u{1f984}', '\u{1f984}']);
}

#[test]
fn teasing_follows_the_drawn_numbers() {
    assert_eq!(annoy_channel_with(10, IDS, &[20, 13, 0, 0, 0, 0]), vec!['\u{1f638}']);
    assert_eq!(annoy_channel_with(10, IDS, &[21, 13, 0, 0, 0, 0]), Vec::<char>::new());
    assert_eq!(annoy_channel_with(20, IDS, &[0, 0, 10, 9, 0, 0]), vec!['\u{1f5dd}']);
    assert_eq!(annoy_channel_with(30, IDS, &[0, 0, 0, 0, 0, 7]), vec!['\u{1f453}']);
    assert_eq!(annoy_channel_with(99, IDS, &[0, 0, 0, 0, 0, 0]), Vec::<char>::new());
    let same = AnnoyedChannels { herdingchatte: 5, cybergod: 5, testbot: 5 };
    assert_eq!(
        annoy_channel_with(5, same, &[0, 0, 0, 0, 0, 1]),
        vec!['\u{1f63a}', '\u{1f511}', '\u{1f5dd}']
    );
    assert!(annoy_channel(99, IDS).is_empty());
    assert!(annoy_channel(10, IDS).len() <= 1);
    assert_eq!(draw(4).len(), 4);
}

#[test]
fn the_teased_user_gets_reactions_and_excuses() {
    assert_eq!(
        personal_attack_with("victim", "victim", 0, 12),
        vec!['\u{1f427}', '\u{1f4a9}']
    );
    assert!(personal_attack_with("other", "victim", 0, 12).is_empty());
    assert_eq!(personal_attack("victim", "victim").len(), 2);
    assert!(personal_attack("other", "victim").is_empty());
    assert_eq!(attacked_with("victim", "victim", 6), Some("Ah oui mais y'a JPO"));
    assert_eq!(attacked_with("victim", "victim", 3), Some("Ah mais vous faites quoi ?"));
    assert_eq!(attacked_with("other", "victim", 3), None);
    assert!(attacked("victim", "victim").is_some());
    assert!(attacked("other", "victim").is_none());
    assert_eq!(
        attack_lauch("<@!173013989180178432>"),
        ("<@173013989180178432>".to_string(), "Prepare yourself <@!173013989180178432> !".to_string())
    );
    assert_eq!(attack_lauch("ab"), ("<@".to_string(), "Prepare yourself ab !".to_string()));
}

#[test]
fn fire_only_messages_of_one_user_are_removed() {
    let pm = 365228504817729539;
    assert!(filter_outannoying_messages(pm, "\u{1f525}"));
    assert!(filter_outannoying_messages(pm, " \u{1f525}\u{1f525} \n"));
    assert!(filter_outannoying_messages(pm, ""));
    assert!(!filter_outannoying_messages(pm, "\u{1f525} hot"));
    assert!(!filter_outannoying_messages(1, "\u{1f525}"));
}

#[test]
fn mentions_of_the_bot_are_recognised() {
    assert!(mentions_bot("<@555206410619584519> ping", BOT));
    assert!(mentions_bot("<@!555206410619584519>", BOT));
    assert!(!mentions_bot(" <@555206410619584519> ping", BOT));
    assert!(!mentions_bot("<@55520641061958451> ping", BOT));
    assert!(!mentions_bot("<@5552064106195845190> ping", BOT));
    assert!(!mentions_bot("", BOT));
}

#[test]
fn a_blocked_author_gets_nothing() {
    let registry = echo_registry();
    let mut env = around("victim", "Admin");
    env.blocked = true;
    let report =
        process_message_with(&registry, &event("<@555206410619584519> ping", 10, 1), &env, &draws(0));
    assert!(report.actions.is_empty());
    assert!(report.dispatch.is_none());
}

#[test]
fn a_phrase_addressed_to_the_bot_is_answered() {
    let registry = echo_registry();
    let report = process_message_with(
        &registry,
        &event("<@555206410619584519> ping", 99, 1),
        &around("someone", "Guest"),
        &draws(1),
    );
    assert_eq!(texts(&report.actions), vec!["Say(\"pong\")".to_string()]);
    assert!(report.dispatch.is_none());
}

#[test]
fn a_bare_mention_gets_a_question() {
    let registry = echo_registry();
    let report = process_message_with(
        &registry,
        &event("<@!555206410619584519>", 99, 1),
        &around("someone", "Guest"),
        &draws(1),
    );
    assert_eq!(texts(&report.actions), vec!["Say(\"What do you need ?\")".to_string()]);
}

#[test]
fn a_command_addressed_to_the_bot_is_dispatched() {
    let registry = echo_registry();
    let report = process_message_with(
        &registry,
        &event("<@555206410619584519> echo \"a b\" c", 10, 77),
        &around("someone", "User"),
        &draws(0),
    );
    assert_eq!(
        texts(&report.actions),
        vec!["React('\u{1f638}')".to_string(), "Reply(\"echo|a b|c:77\")".to_string()]
    );
    let dispatch = report.dispatch.unwrap();
    assert_eq!(dispatch.decision, Decision::Invoke { index: 0 });
    let refused = process_message_with(
        &registry,
        &event("<@555206410619584519> echo", 99, 77),
        &around("someone", "Guest"),
        &draws(1),
    );
    assert_eq!(
        texts(&refused.actions),
        vec!["Say(\"You (Guest) are not allowed to run this command\")".to_string()]
    );
}

#[test]
fn an_unknown_request_gets_a_complaint() {
    let registry = echo_registry();
    let report = process_message_with(
        &registry,
        &event("<@555206410619584519> dance now", 99, 1),
        &around("someone", "Admin"),
        &draws(1),
    );
    assert_eq!(texts(&report.actions), vec!["Say(\"How about a proper request ?\")".to_string()]);
    let dispatch = report.dispatch.unwrap();
    assert!(!dispatch.matched);
    assert_eq!(dispatch.decision, Decision::NotFound);
}

#[test]
fn the_teased_user_is_turned_down() {
    let registry = echo_registry();
    let report = process_message_with(
        &registry,
        &event("<@555206410619584519> echo", 99, 1),
        &around("victim", "Admin"),
        &draws(1),
    );
    assert_eq!(
        texts(&report.actions),
        vec![
            "React('\u{1f427}')".to_string(),
            "React('\u{1f4a9}')".to_string(),
            "Say(\"Vous pourriez faire \u{e7}a vous meme s'il vous pla\u{ee}t ? Je suis occup\u{e9}\")"
                .to_string()
        ]
    );
    assert!(report.dispatch.is_none());
}

#[test]
fn other_messages_are_searched_for_known_words() {
    let registry = echo_registry();
    let report = process_message_with(
        &registry,
        &event("hello there max", 99, 365228504817729539),
        &around("someone", "Guest"),
        &draws(1),
    );
    assert_eq!(
        texts(&report.actions),
        vec![
            "Say(\"https://i.kym-cdn.com/photos/images/newsfeed/001/475/420/c62.gif\")".to_string(),
            "React('\u{1f34c}')".to_string()
        ]
    );
    let removed = process_message_with(
        &registry,
        &event("\u{1f525}", 99, 365228504817729539),
        &around("someone", "Guest"),
        &draws(1),
    );
    assert_eq!(texts(&removed.actions), vec!["Delete".to_string()]);
    let drawn = process_message(&registry, &event("quiet", 99, 1), &around("someone", "Guest"));
    assert!(drawn.actions.is_empty());
}

#[test]
fn reactions_are_routed() {
    let approve = ReactionPlan {
        subscribe: true,
        validation: true,
        deployment: Some(ValidationEmoji::Approve),
        cleanup: false,
    };
    let reject = ReactionPlan {
        subscribe: false,
        validation: true,
        deployment: Some(ValidationEmoji::Reject),
        cleanup: false,
    };
    let nothing =
        ReactionPlan { subscribe: false, validation: false, deployment: None, cleanup: false };
    assert_eq!(reaction_add("\u{2705}", 1, BOT, true), approve);
    assert_eq!(reaction_add("%E2%9C%85", 1, BOT, true), approve);
    assert_eq!(reaction_add("\u{274c}", 1, BOT, true), reject);
    assert_eq!(reaction_add("%E2%9D%8C", 1, BOT, true), reject);
    assert_eq!(
        reaction_add("\u{1f9f9}", 1, BOT, true),
        ReactionPlan { subscribe: false, validation: false, deployment: None, cleanup: true }
    );
    assert_eq!(reaction_add("\u{1f44d}", 1, BOT, true), nothing);
    assert_eq!(reaction_add("\u{2705}", BOT, BOT, true), nothing);
    assert_eq!(reaction_add("\u{2705}", 1, BOT, false), nothing);
    assert!(reaction_remove("\u{2705}", 1, BOT, true));
    assert!(!reaction_remove("\u{274c}", 1, BOT, true));
    assert!(!reaction_remove("\u{2705}", BOT, BOT, true));
    assert!(!reaction_remove("\u{2705}", 1, BOT, false));
}

#[test]
fn messages_and_edits_are_routed() {
    assert!(message(false, "hi"));
    assert!(!message(true, "hi"));
    assert!(!message(false, ""));
    assert_eq!(message_update(Some(2), Some(BOT), BOT), UpdatePlan::Skip);
    assert_eq!(message_update(Some(0), Some(BOT), BOT), UpdatePlan::Reprocess);
    assert_eq!(message_update(None, Some(BOT), BOT), UpdatePlan::Reprocess);
    assert_eq!(message_update(None, Some(3), BOT), UpdatePlan::Record);
    assert_eq!(message_update(None, None, BOT), UpdatePlan::Record);
    let handler = Handler::new();
    assert!(handler.cache_ready());
    assert!(!handler.cache_ready());
}

#[test]
fn white_space_is_what_the_standard_library_takes_for_it() {
    let pm = 365228504817729539;
    for code in 0..=0x10FFFFu32 {
        if let Some(c) = char::from_u32(code) {
            let expected = c.is_whitespace() || c == '\u{1f525}';
            assert_eq!(filter_outannoying_messages(pm, &c.to_string()), expected, "{:?}", c);
        }
    }
}
