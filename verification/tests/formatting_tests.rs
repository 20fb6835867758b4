use gitlists::generic_list::LoadingOperation;
use gitlists::time_format::format_time_elapsed;
use gitlists::time_format::list_title;
use gitlists::BranchActionHandler;
use gitlists::BranchItem;
use gitlists::GitBranch;
use gitlists::GitStash;
use gitlists::InstructionFooter;
use gitlists::ListActionHandler;
use gitlists::StashActionHandler;
use gitlists::StashItem;

#[test]
fn elapsed_times_show_seconds_with_one_decimal() {
    assert_eq!(format_time_elapsed(0), "0.0s");
    assert_eq!(format_time_elapsed(999), "0.9s");
    assert_eq!(format_time_elapsed(1000), "1.0s");
    assert_eq!(format_time_elapsed(12_345), "12.3s");
    assert_eq!(format_time_elapsed(90_060), "90.0s");
}

#[test]
fn titles_follow_the_loading_marker() {
    assert_eq!(list_title(&LoadingOperation::Idle, 5000), "Items");
    assert_eq!(list_title(&LoadingOperation::Loading(1000), 13_345), "Loading... (12.3s)");
    assert_eq!(list_title(&LoadingOperation::Processing(1000), 1500), "Processing... (0.5s)");
    assert_eq!(
        list_title(&LoadingOperation::ProcessingWithProgress(1000, 2, 7), 3100),
        "Processing 2/7... (2.1s)"
    );
}

#[test]
fn title_handles_a_clock_going_backwards() {
    assert_eq!(list_title(&LoadingOperation::Loading(9000), 1000), "Loading... (0.0s)");
}

#[test]
fn branch_instructions_follow_the_selection() {
    let handler = BranchActionHandler;

    // nothing selected: only the fixed hints
    assert_eq!(
        handler.get_instructions(None, false),
        vec!["esc: Exit", "shift+c: Create New", "tab: Switch View"]
    );

    // an unstaged non-head branch offers checkout and staging
    let plain = BranchItem::new(GitBranch::new("dev".to_string()), true);
    assert_eq!(
        handler.get_instructions(Some(&plain), false),
        vec![
            "esc: Exit",
            "shift+c: Create New",
            "c: Checkout",
            "d: Stage for Deletion",
            "tab: Switch View"
        ]
    );

    // the checked-out branch offers neither
    let mut head = GitBranch::new("main".to_string());
    head.is_head = true;
    let head_item = BranchItem::new(head, true);
    assert_eq!(
        handler.get_instructions(Some(&head_item), false),
        vec!["esc: Exit", "shift+c: Create New", "tab: Switch View"]
    );

    // a staged branch offers delete and unstage; staged items add the bulk hint
    let mut staged = BranchItem::new(GitBranch::new("old".to_string()), true);
    staged.stage_for_deletion(true);
    assert_eq!(
        handler.get_instructions(Some(&staged), true),
        vec![
            "esc: Exit",
            "shift+c: Create New",
            "d: Delete",
            "shift+d: Unstage",
            "ctrl+d: Delete All Staged",
            "tab: Switch View"
        ]
    );
}

#[test]
fn stash_instructions_follow_the_selection() {
    let handler = StashActionHandler;

    assert_eq!(
        handler.get_instructions(None, false),
        vec!["esc: Exit", "s: New Stash", "tab: Switch View"]
    );

    let plain = StashItem::new(GitStash::new(
        0,
        "m".to_string(),
        "stash@{0}".to_string(),
        "main".to_string(),
    ));
    assert_eq!(
        handler.get_instructions(Some(&plain), false),
        vec![
            "esc: Exit",
            "s: New Stash",
            "a: Apply",
            "p: Pop",
            "d: Stage for Deletion",
            "tab: Switch View"
        ]
    );

    let mut staged = plain.clone();
    staged.stage_for_deletion(true);
    assert_eq!(
        handler.get_instructions(Some(&staged), true),
        vec![
            "esc: Exit",
            "s: New Stash",
            "a: Apply",
            "p: Pop",
            "d: Drop",
            "shift+d: Unstage",
            "ctrl+d: Drop All Staged",
            "tab: Switch View"
        ]
    );
}

#[test]
fn footer_joins_instructions_with_bars() {
    let footer = InstructionFooter::new();
    assert_eq!(footer.footer_text(&vec![]), "");
    assert_eq!(footer.footer_text(&vec!["esc: Exit"]), "esc: Exit");
    assert_eq!(
        footer.footer_text(&vec!["esc: Exit", "c: Checkout", "tab: Switch View"]),
        "esc: Exit | c: Checkout | tab: Switch View"
    );
}
