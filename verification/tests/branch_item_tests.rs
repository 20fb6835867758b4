use gitlists::BranchItem;
use gitlists::GitBranch;

#[test]
fn test_new_branch_item() {
    let branch = GitBranch { name: "test-branch".to_string(), is_head: false, upstream: None };
    let branch_item = BranchItem::new(branch.clone(), true);

    assert_eq!(branch_item.branch.name, branch.name);
    assert!(branch_item.is_valid_name);
    assert!(!branch_item.staged_for_creation);
    assert!(!branch_item.staged_for_deletion);
}

#[test]
fn test_stage_for_deletion() {
    let branch = GitBranch { name: "test-branch".to_string(), is_head: false, upstream: None };
    let mut branch_item = BranchItem::new(branch, true);

    branch_item.stage_for_deletion(true);
    assert!(branch_item.staged_for_deletion);

    branch_item.stage_for_deletion(false);
    assert!(!branch_item.staged_for_deletion);
}

#[test]
fn round_trip_scenario() {
    // staging then unstaging the selected wrapper restores it exactly
    let mut main = GitBranch::new("main".to_string());
    main.is_head = true;
    let feature = GitBranch::new("feature-a".to_string());

    let original = BranchItem::new(feature, true);
    let mut item = original.clone();
    item.stage_for_deletion(true);
    assert!(item.staged_for_deletion);
    item.stage_for_deletion(false);
    assert_eq!(item, original);
}
