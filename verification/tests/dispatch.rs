use zsh_bot::action::Action;
use zsh_bot::dispatch::Dispatch;
use zsh_bot::request::RequestError;
use zsh_bot::template::{DEFAULT_OPTIONS, SIMPLE_OPTIONS};

fn react(emoji: char) -> Action {
    Action::React { emoji }
}

fn panel(description: &str, options: &str) -> Action {
    Action::SendRich {
        title: "PROPOSAL".to_string(),
        description: description.to_string(),
        field_label: "Voting options:".to_string(),
        field_value: options.to_string(),
    }
}

/// Carries a script out, with the outcome that `outcome` gives for each
/// operation by its position; returns what was offered.
fn run(dispatch: &mut Dispatch, outcome: impl Fn(usize) -> bool) -> Vec<Action> {
    let mut offered = Vec::new();
    loop {
        let action = match dispatch.next_action() {
            Some(action) => action.clone(),
            None => break,
        };
        offered.push(action);
        dispatch.record(outcome(offered.len() - 1));
    }
    offered
}

#[test]
fn ping_sends_exactly_one_reply() {
    let mut d = Dispatch::begin("./", "./ping");
    let offered = run(&mut d, |_| true);
    assert_eq!(offered, vec![Action::ReplyText { text: "Pong!".to_string() }]);
    assert!(d.is_complete());
    assert!(!d.has_failed());
    assert_eq!(d.performed(), 1);
    assert_eq!(d.next_action(), None);
}

#[test]
fn simple_vote_reacts_in_template_order() {
    let mut d = Dispatch::begin("./", "./vote -s \"Pizza Friday?\"");
    let offered = run(&mut d, |_| true);
    assert_eq!(
        offered,
        vec![panel("Pizza Friday?", SIMPLE_OPTIONS), react('\u{2705}'), react('\u{274E}')]
    );
    assert!(d.is_complete());
    assert_eq!(d.performed(), 3);
}

#[test]
fn consensus_vote_reacts_in_template_order() {
    let mut d = Dispatch::begin("./", "./vote \"Adopt RFC 9\"");
    let offered = run(&mut d, |_| true);
    assert_eq!(
        offered,
        vec![
            panel("Adopt RFC 9", DEFAULT_OPTIONS),
            react('\u{2705}'),
            react('\u{1F1EB}'),
            react('\u{1F1F3}'),
            react('\u{1F1E6}'),
            react('\u{274E}'),
        ]
    );
    assert!(d.is_complete());
    assert_eq!(d.performed(), 6);
}

#[test]
fn vote_without_proposal_sends_only_the_error() {
    let mut d = Dispatch::begin("./", "./vote");
    let offered = run(&mut d, |_| true);
    assert_eq!(
        offered,
        vec![Action::ReplyText { text: RequestError::MissingProposal.message() }]
    );
    assert!(offered.iter().all(|a| matches!(a, Action::ReplyText { .. })));
    assert!(d.is_complete());
}

#[test]
fn unmatched_message_has_nothing_to_do() {
    let mut d = Dispatch::begin("./", "good morning");
    assert_eq!(d.next_action(), None);
    assert!(d.is_complete());
    assert_eq!(d.performed(), 0);
    d.record(false);
    assert!(!d.has_failed());
    assert!(d.is_complete());
}

#[test]
fn failed_reaction_stops_the_rest() {
    let mut d = Dispatch::begin("./", "./vote \"Adopt RFC 9\"");
    let offered = run(&mut d, |i| i < 3);
    assert_eq!(
        offered,
        vec![
            panel("Adopt RFC 9", DEFAULT_OPTIONS),
            react('\u{2705}'),
            react('\u{1F1EB}'),
            react('\u{1F1F3}'),
        ]
    );
    assert!(d.has_failed());
    assert!(!d.is_complete());
    assert_eq!(d.performed(), 3);
    assert_eq!(d.next_action(), None);
}

#[test]
fn failed_panel_means_no_reactions() {
    let mut d = Dispatch::begin("./", "./vote -s x");
    let offered = run(&mut d, |_| false);
    assert_eq!(offered, vec![panel("x", SIMPLE_OPTIONS)]);
    assert!(d.has_failed());
    assert_eq!(d.performed(), 0);
}

#[test]
fn nothing_changes_after_the_end() {
    let mut d = Dispatch::begin("./", "./ping");
    d.record(true);
    assert!(d.is_complete());
    d.record(false);
    d.record(true);
    assert!(d.is_complete());
    assert!(!d.has_failed());
    assert_eq!(d.performed(), 1);
}

#[test]
fn nothing_changes_after_a_failure() {
    let mut d = Dispatch::begin("./", "./vote -s x");
    d.record(true);
    d.record(false);
    assert!(d.has_failed());
    assert_eq!(d.performed(), 1);
    d.record(true);
    d.record(true);
    assert!(d.has_failed());
    assert_eq!(d.performed(), 1);
    assert_eq!(d.next_action(), None);
    assert!(!d.is_complete());
}

#[test]
fn pending_operation_is_offered_until_recorded() {
    let d = Dispatch::new(vec![react('a'), react('b')]);
    assert_eq!(d.next_action(), Some(&react('a')));
    assert_eq!(d.next_action(), Some(&react('a')));
    assert_eq!(d.performed(), 0);
    assert!(!d.is_complete());
}

#[test]
fn script_is_offered_one_by_one() {
    let mut d = Dispatch::new(vec![react('a'), react('b'), react('a')]);
    assert_eq!(d.next_action(), Some(&react('a')));
    d.record(true);
    assert_eq!(d.next_action(), Some(&react('b')));
    d.record(true);
    assert_eq!(d.next_action(), Some(&react('a')));
    d.record(true);
    assert_eq!(d.next_action(), None);
    assert!(d.is_complete());
}

#[test]
fn empty_script_is_complete_at_once() {
    let d = Dispatch::new(Vec::new());
    assert!(d.is_complete());
    assert_eq!(d.next_action(), None);
}
