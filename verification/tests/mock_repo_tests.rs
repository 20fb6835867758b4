use gitlists::Error;
use gitlists::GitRepo;
use gitlists::GitStash;
use gitlists::MockGitRepo;

fn stash_with_message(message: &str) -> GitStash {
    GitStash::new(0, message.to_string(), "stash@{0}".to_string(), "main".to_string())
}

#[test]
fn mock_serves_fixed_branches_and_stashes() {
    let repo = MockGitRepo;
    let branches = repo.local_branches().unwrap();
    assert_eq!(branches.len(), 2);
    assert_eq!(branches[0].name, "main");
    assert_eq!(branches[1].name, "test");

    let stashes = repo.stashes().unwrap();
    assert_eq!(stashes.len(), 1);
    assert_eq!(stashes[0].message, "message1");
}

#[test]
fn stash_operations_fail_on_messages_mentioning_fail() {
    let repo = MockGitRepo;
    assert_eq!(
        repo.apply_stash(&stash_with_message("this will FaIl now")),
        Err(Error::Git("Apply stash failed".to_string()))
    );
    assert_eq!(
        repo.pop_stash(&stash_with_message("fail")),
        Err(Error::Git("Pop stash failed".to_string()))
    );
    assert_eq!(
        repo.drop_stash(&stash_with_message("FAILURE ahead")),
        Err(Error::Git("Drop stash failed".to_string()))
    );
    assert_eq!(repo.apply_stash(&stash_with_message("fine")), Ok(()));
    assert_eq!(repo.pop_stash(&stash_with_message("fal")), Ok(()));
}

#[test]
fn stash_with_message_fails_only_on_the_marker() {
    let repo = MockGitRepo;
    assert_eq!(
        repo.stash_with_message("should fail"),
        Err(Error::Git("Stash with message failed".to_string()))
    );
    assert_eq!(repo.stash_with_message("anything else"), Ok(true));
}

#[test]
fn validation_and_mutations_succeed() {
    let repo = MockGitRepo;
    assert_eq!(repo.validate_branch_name("whatever"), Ok(true));
    assert_eq!(repo.checkout_branch_from_name("main"), Ok(()));
}
