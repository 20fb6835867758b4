use gitlists::generic_list::LoadingOperation;
use gitlists::stash_list::fail_operation;
use gitlists::Action;
use gitlists::Error;
use gitlists::GitStash;
use gitlists::KeyCode;
use gitlists::KeyEvent;
use gitlists::KeyModifiers;
use gitlists::MockGitRepo;
use gitlists::SharedListState;
use gitlists::StashActionHandler;
use gitlists::StashInput;
use gitlists::StashInputHandler;
use gitlists::StashItem;
use gitlists::StashList;

fn stash(index: usize, message: &str) -> StashItem {
    StashItem::new(GitStash::new(
        index,
        message.to_string(),
        format!("stash@{{{}}}", index),
        "branch_name".to_string(),
    ))
}

fn list_with(stashes: Vec<StashItem>) -> StashList {
    let mut list = StashList::new(StashActionHandler, StashInputHandler);
    list.state.update_items(stashes);
    list
}

fn key(code: KeyCode) -> KeyEvent {
    KeyEvent { code, modifiers: KeyModifiers::Plain }
}

#[test]
fn test_shared_state_loading() {
    let mut state: SharedListState<StashItem> = SharedListState::new();
    state.set_loading(LoadingOperation::Loading(17));

    assert!(matches!(state.loading, LoadingOperation::Loading(_)));
}

#[test]
fn test_shared_state_send_error() {
    let mut state: SharedListState<StashItem> = SharedListState::new();

    let actions = fail_operation(&mut state, &Error::Git("Test error".to_string()));

    assert_eq!(actions[0], Action::Error("Test error".to_string()));
    assert!(matches!(state.loading, LoadingOperation::Idle));
}

#[test]
fn test_stash_list_select_previous() {
    let mut stash_list = list_with(vec![stash(0, "message1"), stash(1, "message2")]);
    stash_list.state.update_selected_index(0);

    stash_list.state.select_previous();
    assert_eq!(stash_list.state.get_selected_index(), 1);
}

#[test]
fn test_stash_list_select_next() {
    let mut stash_list = list_with(vec![stash(0, "message1"), stash(1, "message2")]);
    stash_list.state.update_selected_index(0);

    stash_list.state.select_next();
    assert_eq!(stash_list.state.get_selected_index(), 1);
}

#[test]
fn test_get_selected_stash() {
    let mut stash_list = list_with(vec![stash(0, "message1")]);
    stash_list.state.update_selected_index(0);

    let selected_stash = stash_list.state.get_selected_item();

    assert!(selected_stash.is_some());
    assert_eq!(selected_stash.unwrap().stash.message, "message1");
}

#[test]
fn test_stage_selected_for_deletion() {
    let mut stash_list = list_with(vec![stash(0, "message1")]);
    stash_list.state.update_selected_index(0);

    let staged = stash_list.state.stage_item_for_deletion(0, true);
    assert!(staged);

    let stashes = stash_list.state.get_items();
    assert!(stashes[0].staged_for_deletion);
}

#[test]
fn test_handle_key_events() {
    let repo = MockGitRepo;
    let mut stash_list = StashList::new(StashActionHandler, StashInputHandler);

    let action = stash_list.handle_key_events(key(KeyCode::Down), &repo);

    assert_eq!(action, Some(Action::SelectNext));
}

#[test]
fn test_handle_key_event_up() {
    let repo = MockGitRepo;
    let mut stash_list = StashList::new(StashActionHandler, StashInputHandler);

    let action = stash_list.handle_key_events(key(KeyCode::Up), &repo);

    assert_eq!(action, Some(Action::SelectPrevious));
}

#[test]
fn test_handle_key_event_apply() {
    let repo = MockGitRepo;
    let mut stash_list = list_with(vec![stash(0, "message1")]);

    let action = stash_list.handle_key_events(key(KeyCode::Char('a')), &repo);

    assert_eq!(action, Some(Action::ApplySelectedStash));
}

#[test]
fn test_handle_key_event_init_new_stash() {
    let repo = MockGitRepo;
    let mut stash_list = StashList::new(StashActionHandler, StashInputHandler);

    let action = stash_list.handle_key_events(key(KeyCode::Char('s')), &repo);

    assert_eq!(action, Some(Action::InitNewStash));
}

#[test]
fn test_handle_key_event_pop() {
    let repo = MockGitRepo;
    let mut stash_list = list_with(vec![stash(0, "message1")]);

    let action = stash_list.handle_key_events(key(KeyCode::Char('p')), &repo);

    assert_eq!(action, Some(Action::PopSelectedStash));
}

#[test]
fn test_handle_key_event_unstage() {
    let repo = MockGitRepo;
    let mut stash_list = StashList::new(StashActionHandler, StashInputHandler);

    let action = stash_list.handle_key_events(
        KeyEvent { code: KeyCode::Char('d'), modifiers: KeyModifiers::Shift },
        &repo,
    );

    assert_eq!(action, Some(Action::UnstageStashForDeletion));
}

#[test]
fn test_handle_key_event_delete_staged() {
    let repo = MockGitRepo;
    let mut stash_list = StashList::new(StashActionHandler, StashInputHandler);

    let action = stash_list.handle_key_events(
        KeyEvent { code: KeyCode::Char('d'), modifiers: KeyModifiers::Control },
        &repo,
    );

    assert_eq!(action, Some(Action::DeleteStagedStashes));
}

#[test]
fn test_handle_key_event_stage_or_drop() {
    let repo = MockGitRepo;
    let mut stash_list = list_with(vec![stash(0, "message1")]);
    stash_list.state.update_selected_index(0);

    let action = stash_list.handle_key_events(key(KeyCode::Char('d')), &repo);

    assert_eq!(action, Some(Action::StageStashForDeletion));
}

#[test]
fn test_handle_key_event_drop_selected_stash() {
    let repo = MockGitRepo;
    let mut stash_list = list_with(vec![stash(0, "message1")]);
    stash_list.state.update_selected_index(0);

    stash_list.state.stage_item_for_deletion(0, true);
    let action = stash_list.handle_key_events(key(KeyCode::Char('d')), &repo);

    assert_eq!(action, Some(Action::DropSelectedStash));
}

#[test]
fn test_handle_key_event_stage_stash_for_deletion() {
    let repo = MockGitRepo;
    let mut stash_list = list_with(vec![stash(0, "message1")]);
    stash_list.state.update_selected_index(0);

    let action = stash_list.handle_key_events(key(KeyCode::Char('d')), &repo);

    assert_eq!(action, Some(Action::StageStashForDeletion));
}

#[test]
fn stash_input_submits_through_engine() {
    let repo = MockGitRepo;
    let mut stash_list = StashList::new(StashActionHandler, StashInputHandler);
    let mut bus = gitlists::ActionBus::new();

    let (follow_up, _) = stash_list.update(Action::InitNewStash, 0, &mut bus);
    assert_eq!(follow_up, Some(Action::StartInputMode));

    for c in "wip".chars() {
        stash_list.handle_key_events(key(KeyCode::Char(c)), &repo);
    }
    let action = stash_list.handle_key_events(key(KeyCode::Enter), &repo);
    assert_eq!(action, Some(Action::CreateStash("wip".to_string())));
}

#[test]
fn stash_input_component_standalone() {
    let mut input = StashInput::new();
    input.text_input.insert_str("  padded message  ");

    let action = input.handle_key_event(key(KeyCode::Enter));
    assert_eq!(action, Some(Action::CreateStash("padded message".to_string())));
}
