use gitlists::generic_list::LoadingOperation;
use gitlists::stash_list::apply_stash_creation_outcome;
use gitlists::stash_list::complete_bulk_delete_stashes;
use gitlists::stash_list::complete_pop_stash;
use gitlists::Action;
use gitlists::Error;
use gitlists::GitStash;
use gitlists::SharedListState;
use gitlists::StashItem;

fn stash(index: usize, message: &str) -> GitStash {
    GitStash::new(index, message.to_string(), format!("stash@{{{}}}", index), "main".to_string())
}

fn state_with(stashes: Vec<GitStash>) -> SharedListState<StashItem> {
    let mut state: SharedListState<StashItem> = SharedListState::new();
    state.update_items(stashes.into_iter().map(StashItem::new).collect());
    state
}

#[test]
fn stash_bulk_delete_keeps_failed_drops_staged() {
    // three stashes staged; only the first and third drops succeed: the
    // middle one stays present and still staged
    let mut state = state_with(vec![stash(0, "a"), stash(1, "b"), stash(2, "c")]);
    state.stage_item_for_deletion(0, true);
    state.stage_item_for_deletion(1, true);
    state.stage_item_for_deletion(2, true);

    let dropped = vec!["stash@{0}".to_string(), "stash@{2}".to_string()];
    let actions = complete_bulk_delete_stashes(&mut state, &dropped);

    assert_eq!(actions, vec![Action::Render]);
    let items = state.get_items();
    assert_eq!(items.len(), 1);
    assert_eq!(items[0].stash.message, "b");
    assert!(items[0].staged_for_deletion);
    assert_eq!(state.get_selected_index(), 0);
    assert!(matches!(state.loading, LoadingOperation::Idle));
}

#[test]
fn stash_bulk_delete_spares_unstaged_items() {
    // an unstaged stash stays even when its id is among the dropped ones
    let mut state = state_with(vec![stash(0, "keep"), stash(1, "go")]);
    state.stage_item_for_deletion(1, true);

    let dropped = vec!["stash@{0}".to_string(), "stash@{1}".to_string()];
    complete_bulk_delete_stashes(&mut state, &dropped);

    let items = state.get_items();
    assert_eq!(items.len(), 1);
    assert_eq!(items[0].stash.message, "keep");
}

#[test]
fn pop_completion_filters_the_popped_stash_out() {
    let mut state = state_with(vec![stash(0, "old")]);
    state.set_loading(LoadingOperation::Processing(5));
    let popped = stash(0, "popped away");

    // the refetch still reports the popped entry (a racing listing): it is
    // filtered out all the same
    let refreshed = Ok(vec![stash(0, "popped away"), stash(1, "still here")]);
    let actions = complete_pop_stash(&mut state, &popped, refreshed);

    assert_eq!(actions, vec![Action::Render]);
    let items = state.get_items();
    assert_eq!(items.len(), 1);
    assert_eq!(items[0].stash.message, "still here");
    assert!(matches!(state.loading, LoadingOperation::Idle));
}

#[test]
fn pop_completion_keeps_items_on_a_failed_refetch() {
    let mut state = state_with(vec![stash(0, "keep me")]);
    let popped = stash(1, "gone");
    let actions = complete_pop_stash(&mut state, &popped, Err(Error::Git("offline".to_string())));

    assert_eq!(actions, vec![Action::Render]);
    assert_eq!(state.get_items().len(), 1);
    assert_eq!(state.get_items()[0].stash.message, "keep me");
}

#[test]
fn nothing_to_stash_is_reported_and_keeps_the_items() {
    let mut state = state_with(vec![stash(0, "existing")]);
    state.set_loading(LoadingOperation::Processing(9));

    let (refetch_owed, actions) = apply_stash_creation_outcome(&mut state, Ok(false));

    assert!(!refetch_owed);
    assert_eq!(actions[0], Action::Error("No local changes to stash".to_string()));
    assert_eq!(actions[1], Action::Render);
    assert_eq!(state.get_items().len(), 1);
    assert_eq!(state.get_items()[0].stash.message, "existing");
    assert!(matches!(state.loading, LoadingOperation::Idle));
}

#[test]
fn failed_stash_creation_is_reported() {
    let mut state = state_with(vec![stash(0, "existing")]);
    let (refetch_owed, actions) =
        apply_stash_creation_outcome(&mut state, Err(Error::Git("denied".to_string())));

    assert!(!refetch_owed);
    assert_eq!(actions[0], Action::Error("denied".to_string()));
    assert_eq!(state.get_items().len(), 1);
}

#[test]
fn successful_stash_creation_owes_a_refetch() {
    let mut state = state_with(vec![stash(0, "existing")]);
    state.set_loading(LoadingOperation::Processing(9));

    let (refetch_owed, actions) = apply_stash_creation_outcome(&mut state, Ok(true));

    assert!(refetch_owed);
    assert!(actions.is_empty());
    // the loading marker stays for the refetch completion to clear
    assert!(matches!(state.loading, LoadingOperation::Processing(_)));
}
