use gitlists::branch_name_acceptable;
use gitlists::Action;
use gitlists::ActionBus;
use gitlists::BranchInputHandler;
use gitlists::GitBranch;
use gitlists::InputHandler;
use gitlists::KeyCode;
use gitlists::KeyEvent;
use gitlists::KeyModifiers;
use gitlists::MockGitRepo;
use gitlists::StashActionHandler;
use gitlists::StashInputHandler;
use gitlists::StashList;

fn branches(names: &[&str]) -> Vec<GitBranch> {
    names.iter().map(|n| GitBranch::new(n.to_string())).collect()
}

#[test]
fn branch_name_decision_truth_table() {
    let current = branches(&["main", "dev"]);

    // approved, non-empty, free: accepted
    assert!(branch_name_acceptable(true, &current, "feature"));
    // whitespace is trimmed before the decision
    assert!(branch_name_acceptable(true, &current, "  feature  "));
    // not approved: rejected whatever the name
    assert!(!branch_name_acceptable(false, &current, "feature"));
    // empty after trimming: rejected
    assert!(!branch_name_acceptable(true, &current, "   "));
    // taken: rejected even when approved
    assert!(!branch_name_acceptable(true, &current, "main"));
    assert!(!branch_name_acceptable(true, &current, "  dev "));
}

#[test]
fn branch_validator_follows_the_decision() {
    // the stub repository approves every name, so the validator reduces to
    // the non-empty and uniqueness checks
    let repo = MockGitRepo;
    let handler = BranchInputHandler;
    let current = branches(&["main"]);

    assert!(handler.validate_input(&repo, &current, &"feature".to_string()));
    assert!(!handler.validate_input(&repo, &current, &"main".to_string()));
    assert!(!handler.validate_input(&repo, &current, &"  ".to_string()));
}

#[test]
fn stash_validator_accepts_exactly_nonempty_messages() {
    let repo = MockGitRepo;
    let handler = StashInputHandler;
    let none: Vec<gitlists::GitStash> = Vec::new();

    assert!(handler.validate_input(&repo, &none, &"work in progress".to_string()));
    assert!(handler.validate_input(&repo, &none, &"  x  ".to_string()));
    assert!(!handler.validate_input(&repo, &none, &"".to_string()));
    assert!(!handler.validate_input(&repo, &none, &"   ".to_string()));
}

#[test]
fn input_mode_editing_keys_reach_the_field() {
    // in input mode every editing key updates the buffer and re-validates;
    // deleting the content back to empty marks the field invalid
    let repo = MockGitRepo;
    let mut list = StashList::new(StashActionHandler, StashInputHandler);
    let mut bus = ActionBus::new();
    list.update(Action::InitNewStash, 0, &mut bus);

    let key = |code: KeyCode| KeyEvent { code, modifiers: KeyModifiers::Plain };
    assert_eq!(list.handle_key_events(key(KeyCode::Char('h')), &repo), None);
    assert_eq!(list.handle_key_events(key(KeyCode::Char('i')), &repo), None);
    assert_eq!(list.input_component.buffer, vec!['h', 'i']);
    assert_eq!(list.input_component.input_state.is_valid, Some(true));
    assert_eq!(list.input_component.input_state.value, Some("hi".to_string()));

    list.handle_key_events(key(KeyCode::Backspace), &repo);
    assert_eq!(list.input_component.buffer, vec!['h']);
    list.handle_key_events(key(KeyCode::Backspace), &repo);
    assert_eq!(list.input_component.buffer, Vec::<char>::new());
    assert_eq!(list.input_component.input_state.is_valid, Some(false));

    // a non-editing key changes nothing
    list.handle_key_events(key(KeyCode::Left), &repo);
    assert_eq!(list.input_component.buffer, Vec::<char>::new());
}
