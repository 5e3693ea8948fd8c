use rbot_discord::constants::CODEFLOW_SUPERVISOR_URL;
use rbot_discord::deployment::{
    is_authorized, DeploymentReactionsData, DeploymentStep, ReactionCollectors, ValidationEmoji,
};
use rbot_discord::validation::{
    applied_message, message_link, strike_through, Resolution, WaitingValidation,
};

/// The actions that wait in these tests.
#[derive(Debug, PartialEq)]
enum Pending {
    Increment(u32),
    ArchiveChannels(Vec<u64>),
}

fn run(action: Pending, counter: &mut u32) {
    match action {
        Pending::Increment(by) => *counter += by,
        Pending::ArchiveChannels(_) => {}
    }
}

#[test]
fn approval_runs_the_action_once() {
    let mut counter = 0;
    let mut store = WaitingValidation::new();
    store.validate_command(42, Pending::Increment(1));
    assert_eq!(store.len(), 1);
    assert!(store.is_pending(42));
    match store.check_validation(42, "\u{2705}") {
        Resolution::Approved(action) => run(action, &mut counter),
        _ => panic!("the first approval must hand the action out"),
    }
    assert_eq!(counter, 1);
    assert!(store.is_empty());
    match store.check_validation(42, "\u{2705}") {
        Resolution::Ignored => {}
        _ => panic!("the second approval must find nothing"),
    }
    assert_eq!(counter, 1);
    assert!(store.is_empty());
}

#[test]
fn two_approvals_in_a_row_execute_once() {
    let mut executed = 0;
    let mut store = WaitingValidation::new();
    store.validate_command(7, Pending::ArchiveChannels(vec![1, 2]));
    for _ in 0..2 {
        if let Resolution::Approved(action) = store.check_validation(7, "\u{2705}") {
            assert_eq!(action, Pending::ArchiveChannels(vec![1, 2]));
            executed += 1;
        }
    }
    assert_eq!(executed, 1);
    assert_eq!(store.len(), 0);
}

#[test]
fn rejection_drops_the_action() {
    let mut store = WaitingValidation::new();
    store.validate_command(7, Pending::Increment(5));
    assert!(matches!(store.check_validation(7, "\u{274c}"), Resolution::Rejected));
    assert!(!store.is_pending(7));
    assert!(matches!(store.check_validation(7, "\u{2705}"), Resolution::Ignored));
}

#[test]
fn other_reactions_and_messages_are_ignored() {
    let mut store = WaitingValidation::new();
    store.validate_command(7, Pending::Increment(5));
    store.validate_command(8, Pending::Increment(6));
    assert!(matches!(store.check_validation(7, "\u{1f9f9}"), Resolution::Ignored));
    assert!(matches!(store.check_validation(7, "%E2%9C%85"), Resolution::Ignored));
    assert!(matches!(store.check_validation(7, ""), Resolution::Ignored));
    assert!(matches!(store.check_validation(9, "\u{2705}"), Resolution::Ignored));
    assert_eq!(store.len(), 2);
    assert!(matches!(
        store.check_validation(8, "\u{2705}"),
        Resolution::Approved(Pending::Increment(6))
    ));
    assert!(store.is_pending(7));
    assert_eq!(store.len(), 1);
}

#[test]
fn a_later_request_on_the_same_message_replaces_the_first() {
    let mut store = WaitingValidation::new();
    store.validate_command(7, Pending::Increment(1));
    store.validate_command(7, Pending::Increment(2));
    assert_eq!(store.len(), 1);
    assert!(matches!(
        store.check_validation(7, "\u{2705}"),
        Resolution::Approved(Pending::Increment(2))
    ));
}

#[test]
fn confirmation_texts() {
    let link = message_link(339372728366923776, 555206410619584519, 1096007878160154697);
    assert_eq!(
        link,
        "https://discordapp.com/channels/339372728366923776/555206410619584519/1096007878160154697"
    );
    assert_eq!(message_link(0, 10, u64::MAX), "https://discordapp.com/channels/0/10/18446744073709551615");
    assert_eq!(
        applied_message(173013989180178432, "https://x/1"),
        "<@173013989180178432> applied https://x/1"
    );
    assert_eq!(strike_through("archive #old ?"), "~~archive #old ?~~");
    assert_eq!(strike_through(""), "~~~~");
}

#[test]
fn decision_words() {
    assert_eq!(ValidationEmoji::Approve.as_str(), "approve");
    assert_eq!(ValidationEmoji::Reject.as_str(), "reject");
    assert_eq!(ValidationEmoji::from_glyph("\u{2705}"), Some(ValidationEmoji::Approve));
    assert_eq!(ValidationEmoji::from_glyph("\u{274c}"), Some(ValidationEmoji::Reject));
    assert_eq!(ValidationEmoji::from_glyph("ok"), None);
}

#[test]
fn authorized_approval_is_forwarded_and_consumed_on_success() {
    let mut bridge = ReactionCollectors::new();
    bridge.track(500, "abc1234".to_string());
    let allowed = vec![10, 20];
    let roles = vec![3, 20];
    let (known, step) = DeploymentReactionsData::validate(
        &bridge,
        500,
        Some(&roles),
        &allowed,
        ValidationEmoji::Approve,
    );
    assert!(known);
    let path = match step {
        DeploymentStep::Forward(path) => path,
        other => panic!("unexpected step {:?}", other),
    };
    assert_eq!(path, "v1/two-factor-deployment/abc1234/approve");
    let supervisor = CODEFLOW_SUPERVISOR_URL { base: "https://supervisor.example".to_string() };
    assert_eq!(
        supervisor.format_url(path),
        "https://supervisor.example/v1/two-factor-deployment/abc1234/approve"
    );
    bridge.settle(500, false);
    assert!(bridge.is_tracked(500));
    bridge.settle(500, true);
    assert!(!bridge.is_tracked(500));
    let (known, step) = DeploymentReactionsData::validate(
        &bridge,
        500,
        Some(&roles),
        &allowed,
        ValidationEmoji::Approve,
    );
    assert!(!known);
    assert!(matches!(step, DeploymentStep::NotTracked));
}

#[test]
fn rejection_is_forwarded_under_its_own_path() {
    let mut bridge = ReactionCollectors::new();
    bridge.track(1, "f00".to_string());
    let (_, step) = DeploymentReactionsData::validate(
        &bridge,
        1,
        Some(&vec![9]),
        &vec![9],
        ValidationEmoji::Reject,
    );
    assert!(matches!(step, DeploymentStep::Forward(p) if p == "v1/two-factor-deployment/f00/reject"));
}

#[test]
fn unauthorized_reaction_leaves_the_deployment() {
    let mut bridge = ReactionCollectors::new();
    bridge.track(1, "f00".to_string());
    let (known, step) = DeploymentReactionsData::validate(
        &bridge,
        1,
        Some(&vec![1, 2, 3]),
        &vec![9],
        ValidationEmoji::Approve,
    );
    assert!(known);
    assert!(matches!(step, DeploymentStep::Denied));
    let (known, step) =
        DeploymentReactionsData::validate(&bridge, 1, None, &vec![9], ValidationEmoji::Approve);
    assert!(known);
    assert!(matches!(step, DeploymentStep::MemberUnknown));
    assert!(bridge.is_tracked(1));
    assert!(!is_authorized(&vec![], &vec![9]));
    assert!(!is_authorized(&vec![9], &vec![]));
    assert!(is_authorized(&vec![1, 9], &vec![8, 9]));
}
