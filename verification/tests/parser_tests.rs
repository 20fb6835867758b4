use gitlists::cli_parse::parse_branch_line;
use gitlists::cli_parse::parse_branches;
use gitlists::cli_parse::parse_stash_list;

#[test]
fn branch_line_with_head_and_upstream() {
    let b = parse_branch_line("* main    abc1234 [origin/main] latest commit");
    assert_eq!(b.name, "main");
    assert!(b.is_head);
    let upstream = b.upstream.expect("upstream expected");
    assert_eq!(upstream.name, "origin/main");
    assert!(!upstream.gone);
}

#[test]
fn branch_line_with_gone_upstream() {
    let b = parse_branch_line("  feature-a def5678 [origin/feature-a: gone] msg");
    assert_eq!(b.name, "feature-a");
    assert!(!b.is_head);
    let upstream = b.upstream.expect("upstream expected");
    assert_eq!(upstream.name, "origin/feature-a");
    assert!(upstream.gone);
}

#[test]
fn branch_line_without_upstream() {
    let b = parse_branch_line("  local-only 12ab34 work in progress");
    assert_eq!(b.name, "local-only");
    assert!(!b.is_head);
    assert!(b.upstream.is_none());
}

#[test]
fn branch_line_that_does_not_fit_becomes_a_name() {
    let b = parse_branch_line("   strange line without a hash   ");
    assert_eq!(b.name, "strange line without a hash");
    assert!(!b.is_head);
    assert!(b.upstream.is_none());
}

#[test]
fn branch_listing_parses_line_by_line() {
    let output = "* main    abc1234 [origin/main] one\n  dev     4567ef  two\n";
    let branches = parse_branches(output);
    assert_eq!(branches.len(), 2);
    assert_eq!(branches[0].name, "main");
    assert!(branches[0].is_head);
    assert_eq!(branches[1].name, "dev");
    assert!(!branches[1].is_head);
    assert!(branches[1].upstream.is_none());
}

#[test]
fn stash_listing_parses_ids_messages_and_branches() {
    let output = "stash@{0}: WIP on main: quick fix (on main)\nstash@{1}: another try (on dev)";
    let stashes = parse_stash_list(output);
    assert_eq!(stashes.len(), 2);

    assert_eq!(stashes[0].index, 0);
    assert_eq!(stashes[0].stash_id, "stash@{0}");
    assert_eq!(stashes[0].message, "WIP on main: quick fix");
    assert_eq!(stashes[0].branch_name, "main");

    assert_eq!(stashes[1].index, 1);
    assert_eq!(stashes[1].stash_id, "stash@{1}");
    assert_eq!(stashes[1].message, "another try");
    assert_eq!(stashes[1].branch_name, "dev");
}

#[test]
fn stash_line_without_branch_part() {
    let stashes = parse_stash_list("stash@{0}: bare message");
    assert_eq!(stashes.len(), 1);
    assert_eq!(stashes[0].message, "bare message");
    assert_eq!(stashes[0].branch_name, "");
}

#[test]
fn empty_output_yields_no_items() {
    assert_eq!(parse_branches("").len(), 0);
    assert_eq!(parse_stash_list("").len(), 0);
}
