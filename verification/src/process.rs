//! The dispatcher: from the tokens of a message to the command that runs and the reply
//! that goes out.

use vstd::prelude::*;
use crate::annoy::{
    annoy_channel_with, annoy_reactions, attack_reactions, attacked_with, draw, draw_six, excuse,
    filter_outannoying_messages, is_filtered_out, personal_attack_with, AnnoyedChannels,
};
use crate::commands::{
    position_of, CallBackParams, CallbackReturn, CommandView, Handler, MessageEvent, Registry,
};
use crate::parse::{message_args, split_message_args};
use crate::permissions::{authorization_of, is_user_allowed, Authorization};
use crate::replies::{
    answer_in, answers_to_words, contain_msg_list, contain_reaction_list, process_contains,
    process_tag_msg, tag_msg_list,
};
use crate::role::Role;
use crate::text::{
    decimal_digits, occurs_at, push_decimal, push_str, starts_with_text, str_eq, string_of,
};

verus! {

/// The reaction that stands for a text-less success.
pub const OK_REACTION: char = '\u{2705}';

/// What the dispatcher settles before any handler runs.
#[derive(Copy, Clone, Debug, PartialEq, Eq, Structural)]
pub enum Decision {
    /// The first token names no command.
    NotFound,
    /// The command at `index` may only be used in another channel.
    WrongChannel { index: usize },
    /// The caller, of tier `role`, may not run the command at `index`.
    Forbidden { index: usize, role: Role },
    /// The command at `index` was given too few arguments.
    NotEnoughArguments { index: usize },
    /// The command at `index` was given too many arguments.
    TooManyArguments { index: usize },
    /// The handler of the command at `index` is to run.
    Invoke { index: usize },
}

impl Decision {
    /// The position of the command that the decision is about, if it is about one.
    pub open spec fn index(self) -> Option<usize> {
        match self {
            Decision::NotFound => None,
            Decision::WrongChannel { index } => Some(index),
            Decision::Forbidden { index, role } => Some(index),
            Decision::NotEnoughArguments { index } => Some(index),
            Decision::TooManyArguments { index } => Some(index),
            Decision::Invoke { index } => Some(index),
        }
    }
}

/// What goes out after a message was dispatched.
#[derive(Debug)]
pub enum Action {
    /// Nothing goes out.
    Nothing,
    /// A message in the channel of the triggering message.
    Say(String),
    /// A reply to the triggering message.
    Reply(String),
    /// A reaction on the triggering message.
    React(char),
    /// The triggering message is removed.
    Delete,
    /// An apology as a reply, with the command and the error to log.
    Failure { reply: String, command: String, error: String },
}

/// An action with its texts taken as sequences of characters.
pub enum ActionView {
    Nothing,
    Say(Seq<char>),
    Reply(Seq<char>),
    React(char),
    Delete,
    Failure { reply: Seq<char>, command: Seq<char>, error: Seq<char> },
}

impl View for Action {
    type V = ActionView;

    open spec fn view(&self) -> ActionView {
        match self {
            Action::Nothing => ActionView::Nothing,
            Action::Say(text) => ActionView::Say(text@),
            Action::Reply(text) => ActionView::Reply(text@),
            Action::React(glyph) => ActionView::React(*glyph),
            Action::Delete => ActionView::Delete,
            Action::Failure { reply, command, error } => ActionView::Failure {
                reply: reply@,
                command: command@,
                error: error@,
            },
        }
    }
}

/// What a handler handed back, with its texts taken as sequences of characters.
pub open spec fn return_view(r: CallbackReturn) -> Result<Option<Seq<char>>, Seq<char>> {
    match r {
        Ok(Some(text)) => Ok(Some(text@)),
        Ok(None) => Ok(None),
        Err(e) => Err(e@),
    }
}

/// The account of one dispatched message.
pub struct DispatchReport {
    /// Whether the first token named a command.
    pub matched: bool,
    /// What was settled before any handler ran.
    pub decision: Decision,
    /// The tier to store for the caller, where the permission gate corrected it.
    pub role_update: Option<Role>,
    /// What the handler handed back, where it ran.
    pub result: Option<CallbackReturn>,
    /// What goes out.
    pub action: Action,
}

/// How a channel is written in a message.
pub open spec fn channel_mention(channel: u64) -> Seq<char> {
    "<#"@ + decimal_digits(channel as nat) + ">"@
}

/// The reply to a command used outside its channel.
pub open spec fn wrong_channel_message(channel: u64) -> Seq<char> {
    "I am not allowed to issue this command in this channel ! Use "@ + channel_mention(channel)
        + " instead."@
}

/// The reply to a caller whose tier is too low.
pub open spec fn forbidden_message(role: Role) -> Seq<char> {
    "You ("@ + role.name() + ") are not allowed to run this command"@
}

/// The reply to a command given too few arguments.
pub open spec fn not_enough_message(usage: Seq<char>) -> Seq<char> {
    "No enough arguments"@ + "\nUsage: "@ + usage
}

/// The reply to a command given too many arguments.
pub open spec fn too_many_message(usage: Seq<char>) -> Seq<char> {
    "Too many arguments"@ + "\nUsage: "@ + usage
}

/// The reply after a handler failed.
pub open spec fn apology_message() -> Seq<char> {
    "Bipboop this is broken <@173013989180178432>"@
}

/// The handler result that asks for a reaction in place of a text.
pub open spec fn ok_sentinel() -> Seq<char> {
    ":ok:"@
}

/// The permission gate's outcome for the command at `index`, where the permission gate is reached: the
/// command exists and is used in its channel.
pub open spec fn gate_of(
    commands: Seq<CommandView>,
    tokens: Seq<Seq<char>>,
    channel: u64,
    stored: Seq<char>,
    membership: Option<bool>,
) -> Option<Authorization> {
    if tokens.len() == 0 {
        None
    } else {
        match position_of(commands, tokens[0]) {
            None => None,
            Some(i) => if commands[i].channel is Some && commands[i].channel->0 != channel {
                None
            } else {
                Some(authorization_of(stored, membership, commands[i].permission))
            },
        }
    }
}

/// What the dispatcher settles for the tokens of a message: the first failing step of
/// lookup by exact name, channel restriction, permission gate and argument count, or
/// else the command to run.
pub open spec fn decision_of(
    commands: Seq<CommandView>,
    tokens: Seq<Seq<char>>,
    channel: u64,
    stored: Seq<char>,
    membership: Option<bool>,
) -> Decision {
    if tokens.len() == 0 {
        Decision::NotFound
    } else {
        match position_of(commands, tokens[0]) {
            None => Decision::NotFound,
            Some(i) => {
                let command = commands[i];
                let gate = authorization_of(stored, membership, command.permission);
                let count = tokens.len() - 1;
                if command.channel is Some && command.channel->0 != channel {
                    Decision::WrongChannel { index: i as usize }
                } else if !gate.allowed {
                    Decision::Forbidden { index: i as usize, role: gate.role }
                } else if count < command.argument_min {
                    Decision::NotEnoughArguments { index: i as usize }
                } else if count > command.argument_max {
                    Decision::TooManyArguments { index: i as usize }
                } else {
                    Decision::Invoke { index: i as usize }
                }
            },
        }
    }
}

/// What goes out for what a handler handed back.
pub open spec fn rendered(
    command: Seq<char>,
    result: Result<Option<Seq<char>>, Seq<char>>,
) -> ActionView {
    match result {
        Ok(None) => ActionView::Nothing,
        Ok(Some(text)) => if text == ok_sentinel() {
            ActionView::React(OK_REACTION)
        } else {
            ActionView::Reply(text)
        },
        Err(error) => ActionView::Failure { reply: apology_message(), command, error },
    }
}

/// What goes out for a decision, given what the handler handed back where it ran.
pub open spec fn action_of(
    commands: Seq<CommandView>,
    decision: Decision,
    result: Option<Result<Option<Seq<char>>, Seq<char>>>,
) -> ActionView {
    match decision {
        Decision::NotFound => ActionView::Nothing,
        Decision::WrongChannel { index } => ActionView::Say(
            wrong_channel_message(commands[index as int].channel->0),
        ),
        Decision::Forbidden { index, role } => ActionView::Say(forbidden_message(role)),
        Decision::NotEnoughArguments { index } => ActionView::Reply(
            not_enough_message(commands[index as int].usage),
        ),
        Decision::TooManyArguments { index } => ActionView::Reply(
            too_many_message(commands[index as int].usage),
        ),
        Decision::Invoke { index } => match result {
            Some(r) => rendered(commands[index as int].name, r),
            None => ActionView::Nothing,
        },
    }
}

/// What holds of the account of a dispatched message: the decision is the dispatcher's,
/// the handler ran exactly where the decision was to invoke it, the corrected tier is
/// the permission gate's, and what goes out follows from the decision and from what
/// the handler handed back.
pub open spec fn dispatched(
    commands: Seq<CommandView>,
    tokens: Seq<Seq<char>>,
    channel: u64,
    stored: Seq<char>,
    membership: Option<bool>,
    r: DispatchReport,
) -> bool {
    &&& r.decision == decision_of(commands, tokens, channel, stored, membership)
    &&& r.matched == !(r.decision is NotFound)
    &&& r.role_update == match gate_of(commands, tokens, channel, stored, membership) {
        Some(gate) => gate.update,
        None => None,
    }
    &&& r.result is Some <==> r.decision is Invoke
    &&& r.action@ == action_of(
        commands,
        r.decision,
        match r.result {
            Some(result) => Some(return_view(result)),
            None => None,
        },
    )
}

/// Checks a command's channel restriction. Where the command is used in another
/// channel, the reply that names the right one is handed out.
pub fn allowed_channel(command_channel: Option<u64>, message_channel: u64) -> (r: Option<String>)
    ensures
        match r {
            None => command_channel is None || command_channel->0 == message_channel,
            Some(reply) => command_channel is Some && command_channel->0 != message_channel
                && reply@ == wrong_channel_message(command_channel->0),
        },
{
    match command_channel {
        Some(channel) => {
            if channel != message_channel {
                let mut msg: Vec<char> = Vec::new();
                push_str(
                    &mut msg,
                    "I am not allowed to issue this command in this channel ! Use ",
                );
                push_str(&mut msg, "<#");
                push_decimal(&mut msg, channel);
                push_str(&mut msg, ">");
                push_str(&mut msg, " instead.");
                assert(msg@ =~= wrong_channel_message(channel));
                Some(string_of(&msg))
            } else {
                None
            }
        },
        None => None,
    }
}

/// Settles what happens to the tokens of a message before any handler runs.
pub fn decide<H>(
    registry: &Registry<H>,
    message_split: &Vec<String>,
    channel: u64,
    stored_role: &str,
    membership: Option<bool>,
) -> (r: (Decision, Option<Authorization>))
    ensures
        r.0 == decision_of(
            registry@,
            message_split.deep_view(),
            channel,
            stored_role@,
            membership,
        ),
        r.1 == gate_of(registry@, message_split.deep_view(), channel, stored_role@, membership),
        match r.0.index() {
            None => true,
            Some(index) => index < registry@.len() && message_split@.len() > 0 && position_of(
                registry@,
                message_split.deep_view()[0],
            ) == Some(index as int),
        },
{
    if message_split.len() == 0 {
        return (Decision::NotFound, None);
    }
    assert(message_split.deep_view()[0] == message_split@[0]@);
    let index = match registry.find(message_split[0].as_str()) {
        None => {
            return (Decision::NotFound, None);
        },
        Some(index) => index,
    };
    let command = registry.get(index);
    if let Some(restricted) = command.channel {
        if restricted != channel {
            return (Decision::WrongChannel { index }, None);
        }
    }
    let gate = is_user_allowed(stored_role, membership, command.permission);
    if !gate.allowed {
        return (Decision::Forbidden { index, role: gate.role }, Some(gate));
    }
    let count = message_split.len() - 1;
    if count < command.argument_min {
        (Decision::NotEnoughArguments { index }, Some(gate))
    } else if count > command.argument_max {
        (Decision::TooManyArguments { index }, Some(gate))
    } else {
        (Decision::Invoke { index }, Some(gate))
    }
}

/// Turns what a handler handed back into what goes out: nothing for no text, a
/// reaction for `:ok:`, a reply for any other text, an apology for an error.
pub fn render(command: &str, result: &CallbackReturn) -> (r: Action)
    ensures
        r@ == rendered(command@, return_view(*result)),
{
    match result {
        Ok(None) => Action::Nothing,
        Ok(Some(text)) => {
            if str_eq(text.as_str(), ":ok:") {
                Action::React(OK_REACTION)
            } else {
                Action::Reply(text.clone())
            }
        },
        Err(error) => Action::Failure {
            reply: "Bipboop this is broken <@173013989180178432>".to_owned(),
            command: command.to_owned(),
            error: error.clone(),
        },
    }
}

fn usage_reply(why: &str, usage: &str) -> (r: String)
    ensures
        r@ == why@ + "\nUsage: "@ + usage@,
{
    let mut msg: Vec<char> = Vec::new();
    push_str(&mut msg, why);
    push_str(&mut msg, "\nUsage: ");
    push_str(&mut msg, usage);
    assert(msg@ =~= why@ + "\nUsage: "@ + usage@);
    string_of(&msg)
}

fn forbidden_reply(role: Role) -> (r: String)
    ensures
        r@ == forbidden_message(role),
{
    let mut msg: Vec<char> = Vec::new();
    push_str(&mut msg, "You (");
    push_str(&mut msg, role.as_str());
    push_str(&mut msg, ") are not allowed to run this command");
    assert(msg@ =~= forbidden_message(role));
    string_of(&msg)
}

/// Dispatches the tokens of a message: finds the command, checks channel, permission
/// and argument count, runs the handler where all three pass, and says what goes out.
///
/// `stored_role` is the name of the tier kept for the caller and `membership` what is
/// known of the caller's live membership. The handler runs only where the decision is
/// to invoke it; its result is in the report.
pub fn process_command<H: Handler>(
    registry: &Registry<H>,
    message_split: &Vec<String>,
    message: &MessageEvent,
    stored_role: &str,
    membership: Option<bool>,
) -> (r: DispatchReport)
    ensures
        dispatched(
            registry@,
            message_split.deep_view(),
            message.channel_id,
            stored_role@,
            membership,
            r,
        ),
{
    let (decision, gate) = decide(
        registry,
        message_split,
        message.channel_id,
        stored_role,
        membership,
    );
    let role_update = match gate {
        Some(gate) => gate.update,
        None => None,
    };
    match decision {
        Decision::NotFound => DispatchReport {
            matched: false,
            decision,
            role_update,
            result: None,
            action: Action::Nothing,
        },
        Decision::WrongChannel { index } => {
            let command = registry.get(index);
            let action = match allowed_channel(command.channel, message.channel_id) {
                Some(reply) => Action::Say(reply),
                None => Action::Nothing,
            };
            DispatchReport { matched: true, decision, role_update, result: None, action }
        },
        Decision::Forbidden { index, role } => DispatchReport {
            matched: true,
            decision,
            role_update,
            result: None,
            action: Action::Say(forbidden_reply(role)),
        },
        Decision::NotEnoughArguments { index } => {
            let command = registry.get(index);
            DispatchReport {
                matched: true,
                decision,
                role_update,
                result: None,
                action: Action::Reply(usage_reply("No enough arguments", command.usage.as_str())),
            }
        },
        Decision::TooManyArguments { index } => {
            let command = registry.get(index);
            DispatchReport {
                matched: true,
                decision,
                role_update,
                result: None,
                action: Action::Reply(usage_reply("Too many arguments", command.usage.as_str())),
            }
        },
        Decision::Invoke { index } => {
            let command = registry.get(index);
            let result = command.handler.execute(CallBackParams { args: message_split, message });
            let action = render(command.name.as_str(), &result);
            DispatchReport { matched: true, decision, role_update, result: Some(result), action }
        },
    }
}

/// A handler runs only where every check passed: the first token is the name of the
/// command, the command is used in its channel, the caller's tier is at least the one
/// asked for, and the number of arguments is within the bounds.
pub proof fn lemma_invoke_passed_every_check(
    commands: Seq<CommandView>,
    tokens: Seq<Seq<char>>,
    channel: u64,
    stored: Seq<char>,
    membership: Option<bool>,
)
    requires
        decision_of(commands, tokens, channel, stored, membership) is Invoke,
        commands.len() <= usize::MAX,
    ensures
        ({
            let index = decision_of(commands, tokens, channel, stored, membership)->Invoke_index;
            let command = commands[index as int];
            let gate = authorization_of(stored, membership, command.permission);
            &&& tokens.len() > 0
            &&& index < commands.len()
            &&& command.name == tokens[0]
            &&& position_of(commands, tokens[0]) == Some(index as int)
            &&& command.channel is None || command.channel->0 == channel
            &&& gate.allowed
            &&& gate.role.rank() >= command.permission.rank()
            &&& command.argument_min <= tokens.len() - 1 <= command.argument_max
        }),
{
    crate::commands::lemma_position_of(commands, tokens[0]);
}

/// A command given fewer arguments than its least or more than its most is never run,
/// whatever else holds; and where it is used in its channel by a caller who may run
/// it, the reply is its usage text after the reason.
pub proof fn lemma_argument_bounds_stop_dispatch(
    commands: Seq<CommandView>,
    tokens: Seq<Seq<char>>,
    channel: u64,
    stored: Seq<char>,
    membership: Option<bool>,
    result: Option<Result<Option<Seq<char>>, Seq<char>>>,
)
    requires
        tokens.len() > 0,
        position_of(commands, tokens[0]) is Some,
        commands.len() <= usize::MAX,
        ({
            let command = commands[position_of(commands, tokens[0])->0];
            tokens.len() - 1 < command.argument_min || tokens.len() - 1 > command.argument_max
        }),
    ensures
        ({
            let decision = decision_of(commands, tokens, channel, stored, membership);
            let command = commands[position_of(commands, tokens[0])->0];
            let gate = authorization_of(stored, membership, command.permission);
            &&& !(decision is Invoke)
            &&& (command.channel is None || command.channel->0 == channel) && gate.allowed ==> {
                &&& tokens.len() - 1 < command.argument_min ==> action_of(
                    commands,
                    decision,
                    result,
                ) == ActionView::Reply(not_enough_message(command.usage))
                &&& tokens.len() - 1 >= command.argument_min ==> action_of(
                    commands,
                    decision,
                    result,
                ) == ActionView::Reply(too_many_message(command.usage))
            }
        }),
{
    crate::commands::lemma_position_of(commands, tokens[0]);
}

/// A first token that names no command has nothing run, nothing sent and no stored
/// tier corrected.
pub proof fn lemma_unknown_command_is_inert(
    commands: Seq<CommandView>,
    tokens: Seq<Seq<char>>,
    channel: u64,
    stored: Seq<char>,
    membership: Option<bool>,
    result: Option<Result<Option<Seq<char>>, Seq<char>>>,
)
    requires
        tokens.len() == 0 || position_of(commands, tokens[0]) is None,
    ensures
        decision_of(commands, tokens, channel, stored, membership) == Decision::NotFound,
        gate_of(commands, tokens, channel, stored, membership) is None,
        action_of(commands, Decision::NotFound, result) == ActionView::Nothing,
{
}

/// A caller whose resolved tier is below the one that a command asks for is refused,
/// with a message that holds the name of the caller's tier, provided the command is
/// used in its channel.
pub proof fn lemma_low_tier_is_refused(
    commands: Seq<CommandView>,
    tokens: Seq<Seq<char>>,
    channel: u64,
    stored: Seq<char>,
    membership: Option<bool>,
    result: Option<Result<Option<Seq<char>>, Seq<char>>>,
)
    requires
        tokens.len() > 0,
        position_of(commands, tokens[0]) is Some,
        commands.len() <= usize::MAX,
        ({
            let command = commands[position_of(commands, tokens[0])->0];
            let gate = authorization_of(stored, membership, command.permission);
            &&& command.channel is None || command.channel->0 == channel
            &&& gate.role.rank() < command.permission.rank()
        }),
    ensures
        ({
            let index = position_of(commands, tokens[0])->0;
            let gate = authorization_of(stored, membership, commands[index].permission);
            let decision = decision_of(commands, tokens, channel, stored, membership);
            let text = forbidden_message(gate.role);
            &&& decision == Decision::Forbidden { index: index as usize, role: gate.role }
            &&& action_of(commands, decision, result) == ActionView::Say(text)
            &&& text.subrange(5, 5 + gate.role.name().len() as int) == gate.role.name()
        }),
{
    crate::commands::lemma_position_of(commands, tokens[0]);
    let index = position_of(commands, tokens[0])->0;
    let gate = authorization_of(stored, membership, commands[index].permission);
    let text = forbidden_message(gate.role);
    reveal_strlit("You (");
    assert("You ("@.len() == 5);
    assert(text.subrange(5, 5 + gate.role.name().len() as int) =~= gate.role.name());
}

/// What surrounds a message when it is processed.
pub struct Surroundings<'a> {
    /// The bot's own identifier.
    pub bot_id: u64,
    /// Whether the author is blocked.
    pub blocked: bool,
    /// The author's name.
    pub author_name: &'a str,
    /// The name of the user who is teased.
    pub attacked: &'a str,
    /// The name of the tier stored for the author.
    pub stored_role: &'a str,
    /// Whether the author holds the member role, where that was looked up.
    pub membership: Option<bool>,
    /// The channels in which the bot teases.
    pub annoyed: AnnoyedChannels,
}

/// The numbers drawn for one message.
pub struct Draws {
    /// For the two reactions on a message of the teased user.
    pub attack: (usize, usize),
    /// For the teased channels, two for each.
    pub annoy: [usize; 6],
    /// For the excuse given to the teased user.
    pub excuse: usize,
}

/// The account of one processed message.
pub struct MessageReport {
    /// What goes out, in order.
    pub actions: Vec<Action>,
    /// The account of the dispatcher, where the message reached it.
    pub dispatch: Option<DispatchReport>,
}

/// A list of actions with their texts taken as sequences of characters.
pub open spec fn actions_view(actions: Seq<Action>) -> Seq<ActionView> {
    actions.map_values(|a: Action| a@)
}

/// A reaction for each glyph.
pub open spec fn reactions_of(glyphs: Seq<char>) -> Seq<ActionView>
    decreases glyphs.len(),
{
    if glyphs.len() == 0 {
        Seq::empty()
    } else {
        reactions_of(glyphs.drop_last()).push(ActionView::React(glyphs.last()))
    }
}

/// A message for each text.
pub open spec fn sayings_of(texts: Seq<Seq<char>>) -> Seq<ActionView> {
    texts.map_values(|t: Seq<char>| ActionView::Say(t))
}

/// How the bot is mentioned, by nickname.
pub open spec fn nick_mention(bot_id: u64) -> Seq<char> {
    "<@!"@ + decimal_digits(bot_id as nat) + ">"@
}

/// How the bot is mentioned.
pub open spec fn plain_mention(bot_id: u64) -> Seq<char> {
    "<@"@ + decimal_digits(bot_id as nat) + ">"@
}

/// Whether a message is addressed to the bot: it begins with a mention of it.
pub open spec fn addresses_bot(content: Seq<char>, bot_id: u64) -> bool {
    occurs_at(content, nick_mention(bot_id), 0) || occurs_at(content, plain_mention(bot_id), 0)
}

/// The answer to a message that mentions the bot and asks for nothing.
pub open spec fn no_request_message() -> Seq<char> {
    "What do you need ?"@
}

/// The answer to a request that is neither a known phrase nor a command.
pub open spec fn improper_request_message() -> Seq<char> {
    "How about a proper request ?"@
}

/// What goes out before a message is looked at for a request: the teasing reactions
/// and the removal of a filtered message.
pub open spec fn opening_actions(
    message: MessageEvent,
    author_name: Seq<char>,
    attacked: Seq<char>,
    annoyed: AnnoyedChannels,
    draws: Draws,
) -> Seq<ActionView> {
    reactions_of(attack_reactions(author_name, attacked, draws.attack.0, draws.attack.1))
        + reactions_of(annoy_reactions(message.channel_id, annoyed, draws.annoy@)) + if is_filtered_out(
        message.author_id,
        message.content@,
    ) {
        seq![ActionView::Delete]
    } else {
        Seq::empty()
    }
}

/// What goes out for a message that is not addressed to the bot: a message for each
/// known word that has one, then a reaction for each known word that has one.
pub open spec fn contains_actions(content: Seq<char>) -> Seq<ActionView> {
    sayings_of(answers_to_words(contain_msg_list(), content)) + reactions_of(
        answers_to_words(contain_reaction_list(), content),
    )
}

/// What holds of the account of a processed message.
///
/// A blocked author gets nothing. Otherwise the opening actions come first; then a
/// message that is not addressed to the bot is answered by its known words; one of the
/// teased user gets an excuse; one that holds nothing after the mention gets a
/// question; one whose first token after the mention is a known phrase gets that
/// phrase's answer; any other goes to the dispatcher, and what the dispatcher sends
/// goes out, or a complaint where no command has that name.
pub open spec fn processed(
    commands: Seq<CommandView>,
    message: MessageEvent,
    bot_id: u64,
    blocked: bool,
    author_name: Seq<char>,
    attacked: Seq<char>,
    stored: Seq<char>,
    membership: Option<bool>,
    annoyed: AnnoyedChannels,
    draws: Draws,
    r: MessageReport,
) -> bool {
    let content = message.content@;
    let tokens = message_args(content);
    let opening = opening_actions(message, author_name, attacked, annoyed, draws);
    let got = actions_view(r.actions@);
    if blocked {
        got == Seq::<ActionView>::empty() && r.dispatch is None
    } else if !addresses_bot(content, bot_id) {
        got == opening + contains_actions(content) && r.dispatch is None
    } else if excuse(author_name, attacked, draws.excuse) is Some {
        got == opening.push(ActionView::Say(excuse(author_name, attacked, draws.excuse)->0))
            && r.dispatch is None
    } else if tokens.len() <= 1 {
        got == opening.push(ActionView::Say(no_request_message())) && r.dispatch is None
    } else if answer_in(tag_msg_list(), tokens[1]) is Some {
        got == opening.push(ActionView::Say(answer_in(tag_msg_list(), tokens[1])->0))
            && r.dispatch is None
    } else {
        &&& r.dispatch is Some
        &&& dispatched(commands, tokens.skip(1), message.channel_id, stored, membership, r.dispatch->0)
        &&& got == opening.push(
            if r.dispatch->0.matched {
                r.dispatch->0.action@
            } else {
                ActionView::Say(improper_request_message())
            },
        )
    }
}

proof fn lemma_actions_view_push(actions: Seq<Action>, action: Action)
    ensures
        actions_view(actions.push(action)) == actions_view(actions).push(action@),
{
    assert(actions_view(actions.push(action)) =~= actions_view(actions).push(action@));
}

proof fn lemma_reactions_of_push(glyphs: Seq<char>, glyph: char)
    ensures
        reactions_of(glyphs.push(glyph)) == reactions_of(glyphs).push(ActionView::React(glyph)),
{
    assert(glyphs.push(glyph).drop_last() =~= glyphs);
}

proof fn lemma_sayings_of_push(texts: Seq<Seq<char>>, text: Seq<char>)
    ensures
        sayings_of(texts.push(text)) == sayings_of(texts).push(ActionView::Say(text)),
{
    assert(sayings_of(texts.push(text)) =~= sayings_of(texts).push(ActionView::Say(text)));
}

/// The glyph at position `i`.
fn glyph_at(glyphs: &Vec<char>, i: usize) -> (c: char)
    requires
        i < glyphs.len(),
    ensures
        c == glyphs@[i as int],
{
    glyphs[i]
}

fn push_reactions(out: &mut Vec<Action>, glyphs: &Vec<char>)
    ensures
        actions_view(final(out)@) == actions_view(old(out)@) + reactions_of(glyphs@),
{
    let ghost before = actions_view(out@);
    let mut i: usize = 0;
    assert(actions_view(out@) =~= before + reactions_of(glyphs@.take(0)));
    while i < glyphs.len()
        invariant
            i <= glyphs.len(),
            actions_view(out@) == before + reactions_of(glyphs@.take(i as int)),
        decreases glyphs.len() - i,
    {
        let ghost sofar = out@;
        let ghost earlier = reactions_of(glyphs@.take(i as int));
        let glyph = glyph_at(glyphs, i);
        out.push(Action::React(glyph));
        proof {
            assert(glyphs@.take(i as int + 1) =~= glyphs@.take(i as int).push(glyph));
            lemma_actions_view_push(sofar, Action::React(glyph));
            lemma_reactions_of_push(glyphs@.take(i as int), glyph);
            assert((before + earlier).push(ActionView::React(glyph)) =~= before + earlier.push(
                ActionView::React(glyph),
            ));
        }
        i = i + 1;
    }
    assert(glyphs@.take(glyphs.len() as int) =~= glyphs@);
}

fn push_sayings(out: &mut Vec<Action>, texts: &Vec<&'static str>)
    ensures
        actions_view(final(out)@) == actions_view(old(out)@) + sayings_of(texts.deep_view()),
{
    let ghost before = actions_view(out@);
    let ghost all = texts.deep_view();
    let mut i: usize = 0;
    assert(actions_view(out@) =~= before + sayings_of(all.take(0)));
    while i < texts.len()
        invariant
            i <= texts.len(),
            all == texts.deep_view(),
            actions_view(out@) == before + sayings_of(all.take(i as int)),
        decreases texts.len() - i,
    {
        let ghost sofar = out@;
        let text = texts[i].to_owned();
        assert(text@ == all[i as int]);
        out.push(Action::Say(text));
        i = i + 1;
        proof {
            assert(out@ == sofar.push(Action::Say(text)));
            assert(all.take(i as int) =~= all.take(i as int - 1).push(all[i as int - 1]));
            lemma_actions_view_push(sofar, Action::Say(text));
            lemma_sayings_of_push(all.take(i as int - 1), all[i as int - 1]);
            assert(actions_view(out@) =~= before + sayings_of(all.take(i as int)));
        }
    }
    assert(all.take(texts.len() as int) =~= all);
}

fn push_action(out: &mut Vec<Action>, action: Action)
    ensures
        actions_view(final(out)@) == actions_view(old(out)@).push(action@),
{
    let ghost sofar = out@;
    out.push(action);
    proof {
        lemma_actions_view_push(sofar, action);
    }
}

/// Says whether a message begins with a mention of the bot.
pub fn mentions_bot(content: &str, bot_id: u64) -> (r: bool)
    ensures
        r == addresses_bot(content@, bot_id),
{
    let mut nick: Vec<char> = Vec::new();
    push_str(&mut nick, "<@!");
    push_decimal(&mut nick, bot_id);
    push_str(&mut nick, ">");
    assert(nick@ =~= nick_mention(bot_id));
    let mut plain: Vec<char> = Vec::new();
    push_str(&mut plain, "<@");
    push_decimal(&mut plain, bot_id);
    push_str(&mut plain, ">");
    assert(plain@ =~= plain_mention(bot_id));
    let nick = string_of(&nick);
    let plain = string_of(&plain);
    starts_with_text(content, nick.as_str()) || starts_with_text(content, plain.as_str())
}

/// Processes a message with numbers already drawn.
pub fn process_message_with<H: Handler>(
    registry: &Registry<H>,
    message: &MessageEvent,
    around: &Surroundings<'_>,
    draws: &Draws,
) -> (r: MessageReport)
    ensures
        processed(
            registry@,
            *message,
            around.bot_id,
            around.blocked,
            around.author_name@,
            around.attacked@,
            around.stored_role@,
            around.membership,
            around.annoyed,
            *draws,
            r,
        ),
{
    let mut actions: Vec<Action> = Vec::new();
    assert(actions_view(actions@) =~= Seq::<ActionView>::empty());
    if around.blocked {
        return MessageReport { actions, dispatch: None };
    }
    let attack = personal_attack_with(
        around.author_name,
        around.attacked,
        draws.attack.0,
        draws.attack.1,
    );
    push_reactions(&mut actions, &attack);
    let tease = annoy_channel_with(message.channel_id, around.annoyed, &draws.annoy);
    push_reactions(&mut actions, &tease);
    if filter_outannoying_messages(message.author_id, message.content.as_str()) {
        push_action(&mut actions, Action::Delete);
    }
    let ghost opening = opening_actions(
        *message,
        around.author_name@,
        around.attacked@,
        around.annoyed,
        *draws,
    );
    assert(actions_view(actions@) =~= opening);
    if !mentions_bot(message.content.as_str(), around.bot_id) {
        let found = process_contains(message.content.as_str());
        push_sayings(&mut actions, &found.messages);
        push_reactions(&mut actions, &found.reactions);
        assert(actions_view(actions@) =~= opening + contains_actions(message.content@));
        return MessageReport { actions, dispatch: None };
    }
    if let Some(text) = attacked_with(around.author_name, around.attacked, draws.excuse) {
        push_action(&mut actions, Action::Say(text.to_owned()));
        return MessageReport { actions, dispatch: None };
    }
    let mut message_split = split_message_args(message.content.as_str());
    let ghost tokens = message_split.deep_view();
    if message_split.len() <= 1 {
        push_action(&mut actions, Action::Say("What do you need ?".to_owned()));
        return MessageReport { actions, dispatch: None };
    }
    message_split.remove(0);
    assert(message_split.deep_view() =~= tokens.skip(1));
    assert(message_split@[0]@ == tokens[1]);
    if let Some(answer) = process_tag_msg(&message_split) {
        push_action(&mut actions, Action::Say(answer.to_owned()));
        return MessageReport { actions, dispatch: None };
    }
    let report = process_command(
        registry,
        &message_split,
        message,
        around.stored_role,
        around.membership,
    );
    if report.matched {
        let action = copy_action(&report.action);
        push_action(&mut actions, action);
    } else {
        push_action(&mut actions, Action::Say("How about a proper request ?".to_owned()));
    }
    MessageReport { actions, dispatch: Some(report) }
}

fn copy_action(action: &Action) -> (r: Action)
    ensures
        r@ == action@,
{
    match action {
        Action::Nothing => Action::Nothing,
        Action::Say(text) => Action::Say(text.clone()),
        Action::Reply(text) => Action::Reply(text.clone()),
        Action::React(glyph) => Action::React(*glyph),
        Action::Delete => Action::Delete,
        Action::Failure { reply, command, error } => Action::Failure {
            reply: reply.clone(),
            command: command.clone(),
            error: error.clone(),
        },
    }
}

/// Processes a message: teases, filters, and answers what is addressed to the bot, by a
/// known phrase or through the dispatcher. Whatever numbers are drawn for the teasing,
/// the account is the one that `processed` describes for them.
pub fn process_message<H: Handler>(
    registry: &Registry<H>,
    message: &MessageEvent,
    around: &Surroundings<'_>,
) -> (r: MessageReport)
    ensures
        exists|draws: Draws|
            processed(
                registry@,
                *message,
                around.bot_id,
                around.blocked,
                around.author_name@,
                around.attacked@,
                around.stored_role@,
                around.membership,
                around.annoyed,
                draws,
                r,
            ),
{
    let pair = draw(2);
    let draws = Draws { attack: (pair[0], pair[1]), annoy: draw_six(), excuse: draw(1)[0] };
    process_message_with(registry, message, around, &draws)
}

} // verus!
