use gitlists::branch_list::complete_bulk_delete_branches;
use gitlists::branch_list::complete_checkout;
use gitlists::branch_list::complete_create_branch;
use gitlists::branch_list::complete_delete_branch;
use gitlists::branch_list::sort_branch_items_by_name;
use gitlists::generic_list::LoadingOperation;
use gitlists::Action;
use gitlists::BranchItem;
use gitlists::Error;
use gitlists::GitBranch;
use gitlists::SharedListState;

fn item(name: &str, is_head: bool) -> BranchItem {
    let mut b = GitBranch::new(name.to_string());
    b.is_head = is_head;
    BranchItem::new(b, true)
}

fn state_with(items: Vec<BranchItem>) -> SharedListState<BranchItem> {
    let mut state: SharedListState<BranchItem> = SharedListState::new();
    state.update_items(items);
    state
}

#[test]
fn checkout_completion_marks_exactly_the_new_head() {
    let mut state = state_with(vec![item("main", true), item("dev", false)]);
    let actions = complete_checkout(&mut state, &"dev".to_string(), Ok(()));

    assert_eq!(actions, vec![Action::Render]);
    let items = state.get_items();
    assert!(!items[0].branch.is_head);
    assert!(items[1].branch.is_head);
    assert!(matches!(state.loading, LoadingOperation::Idle));
}

#[test]
fn checkout_failure_reports_and_keeps_items() {
    let mut state = state_with(vec![item("main", true)]);
    let actions = complete_checkout(
        &mut state,
        &"dev".to_string(),
        Err(Error::Git("no such branch".to_string())),
    );

    assert_eq!(actions[0], Action::Error("no such branch".to_string()));
    assert_eq!(actions[1], Action::Render);
    assert!(state.get_items()[0].branch.is_head);
    assert!(matches!(state.loading, LoadingOperation::Idle));
}

#[test]
fn create_completion_splices_sorts_and_selects() {
    let mut state = state_with(vec![item("main", true), item("alpha", false)]);
    let actions = complete_create_branch(&mut state, &"beta".to_string(), Ok(()));

    assert_eq!(actions, vec![Action::Render]);
    let items = state.get_items();
    assert_eq!(items.len(), 3);
    assert_eq!(items[0].branch.name, "alpha");
    assert_eq!(items[1].branch.name, "beta");
    assert_eq!(items[2].branch.name, "main");
    assert!(items[1].branch.is_head);
    assert!(!items[0].branch.is_head);
    assert!(!items[2].branch.is_head);
    assert_eq!(state.get_selected_index(), 1);
}

#[test]
fn create_failure_keeps_the_list() {
    let mut state = state_with(vec![item("main", true)]);
    let actions =
        complete_create_branch(&mut state, &"dev".to_string(), Err(Error::Git("denied".into())));

    assert_eq!(actions[0], Action::Error("denied".to_string()));
    assert_eq!(state.get_items().len(), 1);
}

#[test]
fn delete_completion_removes_and_clamps_selection() {
    let mut state = state_with(vec![item("a", true), item("b", false)]);
    state.update_selected_index(1);

    let actions = complete_delete_branch(&mut state, 1, Ok(()));
    assert_eq!(actions, vec![Action::Render]);
    assert_eq!(state.get_items().len(), 1);
    assert_eq!(state.get_selected_index(), 0);
}

#[test]
fn delete_failure_keeps_the_item() {
    let mut state = state_with(vec![item("a", true), item("b", false)]);
    let actions = complete_delete_branch(&mut state, 1, Err(Error::Git("in use".into())));

    assert_eq!(actions[0], Action::Error("in use".to_string()));
    assert_eq!(state.get_items().len(), 2);
}

#[test]
fn branch_bulk_completion_removes_staged_deleted_names_only() {
    // staged and deleted leaves; staged but failed stays staged; the
    // checked-out branch stays even if its name were reported deleted
    let mut state = state_with(vec![item("main", true), item("x", false), item("y", false)]);
    state.stage_item_for_deletion(1, true);
    state.stage_item_for_deletion(2, true);

    let deleted = vec!["main".to_string(), "x".to_string()];
    let actions = complete_bulk_delete_branches(&mut state, &deleted);

    assert_eq!(actions, vec![Action::Render]);
    let items = state.get_items();
    assert_eq!(items.len(), 2);
    assert_eq!(items[0].branch.name, "main");
    assert_eq!(items[1].branch.name, "y");
    assert!(items[1].staged_for_deletion);
    assert!(matches!(state.loading, LoadingOperation::Idle));
}

#[test]
fn sorting_orders_by_name_and_keeps_the_items() {
    let mut items = vec![item("zeta", false), item("alpha", true), item("mid", false)];
    sort_branch_items_by_name(&mut items);

    assert_eq!(items.len(), 3);
    assert_eq!(items[0].branch.name, "alpha");
    assert_eq!(items[1].branch.name, "mid");
    assert_eq!(items[2].branch.name, "zeta");
    assert!(items[0].branch.is_head);
}
