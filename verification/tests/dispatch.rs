use rbot_discord::commands::{
    CallBackParams, CallbackReturn, Command, Handler, MessageEvent, Registry, RegistryError,
};
use rbot_discord::process::{allowed_channel, decide, process_command, render, Action, Decision};
use rbot_discord::role::Role;
use std::cell::Cell;
use std::rc::Rc;

/// A handler that counts its calls and answers with a fixed result.
struct Fixed {
    calls: Rc<Cell<u32>>,
    answer: CallbackReturn,
}

impl Handler for Fixed {
    fn execute(&self, _params: CallBackParams<'_>) -> CallbackReturn {
        self.calls.set(self.calls.get() + 1);
        self.answer.clone()
    }
}

fn command(
    name: &str,
    permission: Role,
    min: usize,
    max: usize,
    channel: Option<u64>,
    calls: &Rc<Cell<u32>>,
    answer: CallbackReturn,
) -> Command<Fixed> {
    Command {
        name: name.to_string(),
        handler: Fixed { calls: calls.clone(), answer },
        argument_min: min,
        argument_max: max,
        channel,
        usage: format!("@BOT {}", name),
        permission,
    }
}

fn event(channel_id: u64) -> MessageEvent {
    MessageEvent { content: String::new(), author_id: 7, channel_id, message_id: 99 }
}

fn tokens(words: &[&str]) -> Vec<String> {
    words.iter().map(|w| w.to_string()).collect()
}

fn registry(calls: &Rc<Cell<u32>>) -> Registry<Fixed> {
    let built = Registry::build(vec![
        command("ping", Role::Guest, 0, 0, None, calls, Ok(Some("pong".to_string()))),
        command("quit", Role::Admin, 0, 0, None, calls, Ok(None)),
        command("edit", Role::User, 2, 3, None, calls, Ok(Some(":ok:".to_string()))),
        command("mail", Role::Guest, 0, 0, Some(469143963585216512), calls, Ok(None)),
        command("boom", Role::Guest, 0, 5, None, calls, Err("it broke".to_string())),
    ]);
    match built {
        Ok(registry) => registry,
        Err(e) => panic!("registry refused: {:?}", e),
    }
}

fn text_of(action: &Action) -> Option<String> {
    match action {
        Action::Say(text) | Action::Reply(text) => Some(text.clone()),
        _ => None,
    }
}

#[test]
fn ping_from_a_guest_yields_pong() {
    let calls = Rc::new(Cell::new(0));
    let registry = registry(&calls);
    let report = process_command(&registry, &tokens(&["ping"]), &event(1), "Guest", None);
    assert!(report.matched);
    assert_eq!(report.decision, Decision::Invoke { index: 0 });
    assert_eq!(report.result, Some(Ok(Some("pong".to_string()))));
    assert!(matches!(&report.action, Action::Reply(text) if text == "pong"));
    assert_eq!(report.role_update, None);
    assert_eq!(calls.get(), 1);
}

#[test]
fn unknown_command_does_nothing() {
    let calls = Rc::new(Cell::new(0));
    let registry = registry(&calls);
    for words in [vec!["pong"], vec!["Ping"], vec!["ping "], vec![]] {
        let report = process_command(&registry, &tokens(&words), &event(1), "Guest", Some(true));
        assert!(!report.matched);
        assert_eq!(report.decision, Decision::NotFound);
        assert!(matches!(report.action, Action::Nothing));
        assert_eq!(report.result, None);
        assert_eq!(report.role_update, None);
    }
    assert_eq!(calls.get(), 0);
}

#[test]
fn argument_count_out_of_bounds_gives_usage() {
    let calls = Rc::new(Cell::new(0));
    let registry = registry(&calls);
    let few = process_command(&registry, &tokens(&["edit", "1"]), &event(1), "User", None);
    assert_eq!(few.decision, Decision::NotEnoughArguments { index: 2 });
    assert_eq!(text_of(&few.action), Some("No enough arguments\nUsage: @BOT edit".to_string()));
    assert!(matches!(few.action, Action::Reply(_)));
    let many = process_command(
        &registry,
        &tokens(&["edit", "1", "2", "3", "4"]),
        &event(1),
        "User",
        None,
    );
    assert_eq!(many.decision, Decision::TooManyArguments { index: 2 });
    assert_eq!(text_of(&many.action), Some("Too many arguments\nUsage: @BOT edit".to_string()));
    let extra = process_command(&registry, &tokens(&["ping", "now"]), &event(1), "Guest", None);
    assert_eq!(extra.decision, Decision::TooManyArguments { index: 0 });
    assert_eq!(few.result, None);
    assert_eq!(many.result, None);
    assert_eq!(calls.get(), 0);
    let exact = process_command(&registry, &tokens(&["edit", "1", "2"]), &event(1), "User", None);
    assert_eq!(exact.decision, Decision::Invoke { index: 2 });
    assert!(matches!(exact.action, Action::React('\u{2705}')));
    assert_eq!(calls.get(), 1);
}

#[test]
fn user_is_refused_an_admin_command() {
    let calls = Rc::new(Cell::new(0));
    let registry = registry(&calls);
    let report = process_command(&registry, &tokens(&["quit"]), &event(1), "User", Some(true));
    assert!(report.matched);
    assert_eq!(report.decision, Decision::Forbidden { index: 1, role: Role::User });
    let text = text_of(&report.action).unwrap();
    assert_eq!(text, "You (User) are not allowed to run this command");
    assert!(text.contains("User"));
    assert!(matches!(report.action, Action::Say(_)));
    assert_eq!(calls.get(), 0);
    let admin = process_command(&registry, &tokens(&["quit"]), &event(1), "Admin", None);
    assert_eq!(admin.decision, Decision::Invoke { index: 1 });
    assert!(matches!(admin.action, Action::Nothing));
    assert_eq!(calls.get(), 1);
}

#[test]
fn permission_check_reports_the_corrected_tier() {
    let calls = Rc::new(Cell::new(0));
    let registry = registry(&calls);
    let promoted = process_command(&registry, &tokens(&["edit", "a", "b"]), &event(1), "Guest", Some(true));
    assert_eq!(promoted.decision, Decision::Invoke { index: 2 });
    assert_eq!(promoted.role_update, Some(Role::User));
    let demoted = process_command(&registry, &tokens(&["edit", "a", "b"]), &event(1), "User", Some(false));
    assert_eq!(demoted.decision, Decision::Forbidden { index: 2, role: Role::Guest });
    assert_eq!(demoted.role_update, Some(Role::Guest));
    assert_eq!(
        text_of(&demoted.action),
        Some("You (Guest) are not allowed to run this command".to_string())
    );
}

#[test]
fn channel_restriction_comes_first() {
    let calls = Rc::new(Cell::new(0));
    let registry = registry(&calls);
    let report = process_command(&registry, &tokens(&["mail", "x"]), &event(5), "nobody", Some(true));
    assert_eq!(report.decision, Decision::WrongChannel { index: 3 });
    assert_eq!(
        text_of(&report.action),
        Some(
            "I am not allowed to issue this command in this channel ! Use <#469143963585216512> instead."
                .to_string()
        )
    );
    assert_eq!(report.role_update, None);
    assert_eq!(calls.get(), 0);
    let inside = process_command(&registry, &tokens(&["mail"]), &event(469143963585216512), "Guest", None);
    assert_eq!(inside.decision, Decision::Invoke { index: 3 });
    assert_eq!(allowed_channel(None, 5), None);
    assert_eq!(allowed_channel(Some(5), 5), None);
    assert_eq!(
        allowed_channel(Some(0), 5),
        Some("I am not allowed to issue this command in this channel ! Use <#0> instead.".to_string())
    );
}

#[test]
fn handler_error_becomes_an_apology() {
    let calls = Rc::new(Cell::new(0));
    let registry = registry(&calls);
    let report = process_command(&registry, &tokens(&["boom"]), &event(1), "Guest", None);
    assert_eq!(report.result, Some(Err("it broke".to_string())));
    match report.action {
        Action::Failure { reply, command, error } => {
            assert_eq!(reply, "Bipboop this is broken <@173013989180178432>");
            assert_eq!(command, "boom");
            assert_eq!(error, "it broke");
        }
        other => panic!("unexpected action {:?}", other),
    }
}

#[test]
fn results_are_rendered() {
    assert!(matches!(render("x", &Ok(None)), Action::Nothing));
    assert!(matches!(render("x", &Ok(Some(":ok:".to_string()))), Action::React('\u{2705}')));
    assert!(matches!(render("x", &Ok(Some(":ok: ".to_string()))), Action::Reply(t) if t == ":ok: "));
    assert!(matches!(render("x", &Ok(Some(String::new()))), Action::Reply(t) if t.is_empty()));
}

#[test]
fn decide_agrees_with_dispatch() {
    let calls = Rc::new(Cell::new(0));
    let registry = registry(&calls);
    let (decision, gate) = decide(&registry, &tokens(&["quit"]), 1, "Moderator", Some(false));
    assert_eq!(decision, Decision::Forbidden { index: 1, role: Role::Moderator });
    assert_eq!(gate.map(|g| g.update), Some(None));
    let (decision, gate) = decide(&registry, &tokens(&["nope"]), 1, "Admin", None);
    assert_eq!(decision, Decision::NotFound);
    assert!(gate.is_none());
    assert_eq!(calls.get(), 0);
}

#[test]
fn registry_refuses_faulty_definitions() {
    let calls = Rc::new(Cell::new(0));
    let empty = Registry::build(vec![
        command("ping", Role::Guest, 0, 0, None, &calls, Ok(None)),
        command("", Role::Guest, 0, 0, None, &calls, Ok(None)),
    ]);
    assert_eq!(empty.err(), Some(RegistryError::EmptyName(1)));
    let bounds = Registry::build(vec![command("ping", Role::Guest, 2, 1, None, &calls, Ok(None))]);
    assert_eq!(bounds.err(), Some(RegistryError::InvalidBounds(0)));
    let twice = Registry::build(vec![
        command("ping", Role::Guest, 0, 0, None, &calls, Ok(None)),
        command("pong", Role::Guest, 0, 0, None, &calls, Ok(None)),
        command("ping", Role::Admin, 1, 1, None, &calls, Ok(None)),
    ]);
    assert_eq!(twice.err(), Some(RegistryError::DuplicateName(2)));
    let first_fault = Registry::build(vec![
        command("a", Role::Guest, 0, 0, None, &calls, Ok(None)),
        command("a", Role::Guest, 3, 1, None, &calls, Ok(None)),
        command("", Role::Guest, 0, 0, None, &calls, Ok(None)),
    ]);
    assert_eq!(first_fault.err(), Some(RegistryError::InvalidBounds(1)));
    let none: Result<Registry<Fixed>, RegistryError> = Registry::build(vec![]);
    assert_eq!(none.ok().map(|r| r.len()), Some(0));
}

#[test]
fn registry_finds_by_exact_name() {
    let calls = Rc::new(Cell::new(0));
    let registry = registry(&calls);
    assert_eq!(registry.len(), 5);
    assert_eq!(registry.find("edit"), Some(2));
    assert_eq!(registry.find("Edit"), None);
    assert_eq!(registry.find("edi"), None);
    assert_eq!(registry.get(2).usage, "@BOT edit");
    assert_eq!(registry.get(1).permission, Role::Admin);
}
