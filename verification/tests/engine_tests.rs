use gitlists::generic_list::LoadingOperation;
use gitlists::Action;
use gitlists::ActionBus;
use gitlists::BranchActionHandler;
use gitlists::BranchInputHandler;
use gitlists::BranchItem;
use gitlists::BranchList;
use gitlists::Error;
use gitlists::GitBranch;
use gitlists::ListOperation;
use gitlists::SharedListState;

fn branch(name: &str, is_head: bool) -> GitBranch {
    let mut b = GitBranch::new(name.to_string());
    b.is_head = is_head;
    b
}

fn item(name: &str, is_head: bool) -> BranchItem {
    BranchItem::new(branch(name, is_head), true)
}

fn branch_list_with(items: Vec<BranchItem>) -> BranchList {
    let mut list = BranchList::new(BranchActionHandler, BranchInputHandler);
    list.state.update_items(items);
    list
}

#[test]
fn selection_wraps_after_full_cycle() {
    // from any start, as many next-steps as there are items return there
    for start in 0..3usize {
        let mut state: SharedListState<BranchItem> = SharedListState::new();
        state.update_items(vec![item("a", true), item("b", false), item("c", false)]);
        state.update_selected_index(start);
        for _ in 0..3 {
            state.select_next();
        }
        assert_eq!(state.get_selected_index(), start);
    }
}

#[test]
fn select_previous_inverts_select_next() {
    for start in 0..3usize {
        let mut state: SharedListState<BranchItem> = SharedListState::new();
        state.update_items(vec![item("a", true), item("b", false), item("c", false)]);
        state.update_selected_index(start);
        state.select_next();
        state.select_previous();
        assert_eq!(state.get_selected_index(), start);
        state.select_previous();
        state.select_next();
        assert_eq!(state.get_selected_index(), start);
    }
}

#[test]
fn empty_list_operations_are_no_ops() {
    // navigation, staging and the primary action on an empty list change
    // nothing and never panic; the selection stays at zero
    let mut list = BranchList::new(BranchActionHandler, BranchInputHandler);
    let mut bus = ActionBus::new();

    list.state.select_next();
    assert_eq!(list.state.get_selected_index(), 0);
    list.state.select_previous();
    assert_eq!(list.state.get_selected_index(), 0);

    let staged = list.state.stage_item_for_deletion(0, true);
    assert!(!staged);
    assert_eq!(list.state.get_selected_index(), 0);

    let (follow_up, op) = list.update(Action::CheckoutSelectedBranch, 0, &mut bus);
    assert_eq!(follow_up, None);
    assert!(op.is_none());
    assert_eq!(list.state.get_selected_index(), 0);
    assert_eq!(bus.len(), 0);
}

#[test]
fn head_branch_is_never_staged() {
    let mut list = branch_list_with(vec![item("main", true), item("feature", false)]);
    let mut bus = ActionBus::new();

    list.state.update_selected_index(0);
    let (follow_up, _) = list.update(Action::StageBranchForDeletion, 0, &mut bus);
    assert_eq!(follow_up, Some(Action::Render));
    assert!(!list.state.get_items()[0].staged_for_deletion);

    // a non-head branch can be staged
    list.state.update_selected_index(1);
    list.update(Action::StageBranchForDeletion, 0, &mut bus);
    assert!(list.state.get_items()[1].staged_for_deletion);
}

#[test]
fn delete_action_refuses_head_branch() {
    let mut list = branch_list_with(vec![item("main", true)]);
    let mut bus = ActionBus::new();
    let (_, op) = list.update(Action::DeleteBranch, 0, &mut bus);
    assert!(op.is_none());
    assert_eq!(bus.len(), 0);
}

#[test]
fn bulk_delete_removes_exactly_the_successful_staged_items() {
    // stage two of three items, let only the first delete succeed: the
    // failed one stays present and still staged
    let mut state: SharedListState<BranchItem> = SharedListState::new();
    state.update_items(vec![item("a", false), item("b", true), item("c", false)]);
    state.stage_item_for_deletion(0, true);
    state.stage_item_for_deletion(2, true);

    let succeeded = vec![true, false, false];
    state.complete_bulk_delete(&succeeded);

    let items = state.get_items();
    assert_eq!(items.len(), 2);
    assert_eq!(items[0].branch.name, "b");
    assert_eq!(items[1].branch.name, "c");
    assert!(items[1].staged_for_deletion);
    assert_eq!(state.get_selected_index(), 0);
}

#[test]
fn bulk_delete_with_no_success_changes_nothing() {
    let mut state: SharedListState<BranchItem> = SharedListState::new();
    state.update_items(vec![item("a", false), item("b", true)]);
    state.stage_item_for_deletion(0, true);

    let succeeded = vec![false, false];
    state.complete_bulk_delete(&succeeded);

    assert_eq!(state.get_items().len(), 2);
    assert!(state.get_items()[0].staged_for_deletion);
}

#[test]
fn refresh_sets_loading_and_completion_always_clears_it() {
    // the success path: Refresh -> fetch -> ItemsLoaded clears the marker
    let mut list = BranchList::new(BranchActionHandler, BranchInputHandler);
    let mut bus = ActionBus::new();

    let (_, op) = list.update(Action::Refresh, 500, &mut bus);
    assert!(matches!(op, Some(ListOperation::Fetch)));
    assert!(matches!(list.state.loading, LoadingOperation::Loading(500)));

    let fetched = Ok(vec![branch("main", true), branch("dev", false)]);
    let actions = list.state.apply_fetch_result(fetched);
    assert_eq!(actions, vec![Action::ItemsLoaded]);
    for a in actions {
        list.update(a, 600, &mut bus);
    }
    assert!(matches!(list.state.loading, LoadingOperation::Idle));
    assert_eq!(list.state.get_items().len(), 2);

    // the failure path: the error is surfaced and the marker still clears
    list.update(Action::Refresh, 700, &mut bus);
    assert!(matches!(list.state.loading, LoadingOperation::Loading(700)));
    let failed: Result<Vec<GitBranch>, Error> = Err(Error::Git("boom".to_string()));
    let actions = list.state.apply_fetch_result(failed);
    assert_eq!(actions[0], Action::Error("boom".to_string()));
    assert_eq!(actions[1], Action::LoadingComplete);
    for a in actions {
        list.update(a, 800, &mut bus);
    }
    assert!(matches!(list.state.loading, LoadingOperation::Idle));
    assert_eq!(list.state.get_items().len(), 2);
}

#[test]
fn dispatch_sets_the_marker_before_the_operation_starts() {
    // the marker is already Processing when the operation is handed out, so
    // no completion can outrun it; SetLoading(false) clears it
    let mut list = branch_list_with(vec![item("main", true)]);
    let mut bus = ActionBus::new();

    let (_, op) = list.update(Action::CheckoutSelectedBranch, 100, &mut bus);
    assert!(matches!(op, Some(ListOperation::Primary(_))));
    assert!(matches!(list.state.loading, LoadingOperation::Processing(100)));
    assert_eq!(bus.try_receive_all(), vec![Action::Render]);

    list.update(Action::SetLoading(false), 200, &mut bus);
    assert!(matches!(list.state.loading, LoadingOperation::Idle));
}

#[test]
fn bus_ordering_scenario() {
    // three queued actions drain in arrival order and, applied to a
    // three-item list, leave the third item selected and staged
    let mut list = branch_list_with(vec![item("a", true), item("b", false), item("c", false)]);
    list.state.update_selected_index(0);

    let mut bus = ActionBus::new();
    bus.send(Action::SelectNext);
    bus.send(Action::SelectNext);
    bus.send(Action::StageBranchForDeletion);

    let drained = bus.try_receive_all();
    assert_eq!(
        drained,
        vec![Action::SelectNext, Action::SelectNext, Action::StageBranchForDeletion]
    );
    assert_eq!(bus.len(), 0);

    let mut scratch = ActionBus::new();
    for action in drained {
        list.update(action, 0, &mut scratch);
    }
    assert_eq!(list.state.get_selected_index(), 2);
    assert!(list.state.get_items()[2].staged_for_deletion);
}

#[test]
fn bulk_delete_action_collects_staged_targets() {
    let mut list = branch_list_with(vec![item("main", true), item("x", false), item("y", false)]);
    let mut bus = ActionBus::new();

    list.state.update_selected_index(1);
    list.update(Action::StageBranchForDeletion, 0, &mut bus);
    list.state.update_selected_index(2);
    list.update(Action::StageBranchForDeletion, 0, &mut bus);

    let (_, op) = list.update(Action::DeleteStagedBranches, 0, &mut bus);
    match op {
        Some(ListOperation::BulkDelete(targets)) => {
            assert_eq!(targets.len(), 2);
            assert_eq!(targets[0].name, "x");
            assert_eq!(targets[1].name, "y");
        },
        other => panic!("expected a bulk delete, got {:?}", other.is_some()),
    }
}

#[test]
fn input_mode_round_trip_through_engine() {
    let mut list = branch_list_with(vec![item("main", true)]);
    let mut bus = ActionBus::new();

    let (follow_up, _) = list.update(Action::InitNewBranch, 0, &mut bus);
    assert_eq!(follow_up, Some(Action::StartInputMode));

    let (follow_up, op) = list.update(Action::CreateBranch("dev".to_string()), 0, &mut bus);
    assert_eq!(follow_up, Some(Action::EndInputMod));
    match op {
        Some(ListOperation::Create(name)) => assert_eq!(name, "dev"),
        _ => panic!("expected a create operation"),
    }
}
