use gitlists::generic_list::LoadingOperation;
use gitlists::stash_list::complete_stash_refresh;
use gitlists::Action;
use gitlists::Error;
use gitlists::GitStash;
use gitlists::SharedListState;
use gitlists::StashItem;

fn stash(index: usize, message: &str) -> GitStash {
    GitStash::new(index, message.to_string(), format!("stash@{{{}}}", index), "main".to_string())
}

#[test]
fn refetch_replaces_the_items_and_clamps_the_selection() {
    let mut state: SharedListState<StashItem> = SharedListState::new();
    state.update_items(vec![
        StashItem::new(stash(0, "a")),
        StashItem::new(stash(1, "b")),
        StashItem::new(stash(2, "c")),
    ]);
    state.update_selected_index(2);
    state.set_loading(LoadingOperation::Processing(10));

    let actions = complete_stash_refresh(&mut state, Ok(vec![stash(0, "x")]));

    assert_eq!(actions, vec![Action::Render]);
    assert_eq!(state.get_items().len(), 1);
    assert_eq!(state.get_items()[0].stash.message, "x");
    assert!(!state.get_items()[0].staged_for_deletion);
    assert_eq!(state.get_selected_index(), 0);
    assert!(matches!(state.loading, LoadingOperation::Idle));
}

#[test]
fn failed_refetch_keeps_the_previous_items() {
    let mut state: SharedListState<StashItem> = SharedListState::new();
    state.update_items(vec![StashItem::new(stash(0, "keep me"))]);
    state.set_loading(LoadingOperation::Processing(10));

    let actions = complete_stash_refresh(&mut state, Err(Error::Git("offline".to_string())));

    assert_eq!(actions, vec![Action::Render]);
    assert_eq!(state.get_items().len(), 1);
    assert_eq!(state.get_items()[0].stash.message, "keep me");
    assert!(matches!(state.loading, LoadingOperation::Idle));
}
