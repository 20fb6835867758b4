use gitlists::Action;
use gitlists::BranchInput;
use gitlists::Error;
use gitlists::GitBranch;
use gitlists::GitRepo;
use gitlists::GitStash;
use gitlists::KeyCode;
use gitlists::KeyEvent;
use gitlists::KeyModifiers;
use gitlists::MockGitRepo;

#[test]
fn branch_input_test_handle_key_event_submit() {
    let mut branch_input = BranchInput::new();
    branch_input.text_input.insert_str("new-branch");

    let repo = MockGitRepo;
    let main_branch = GitBranch::new("main".to_string());
    let current_branches = vec![&main_branch];

    let action = branch_input.handle_key_event(
        KeyEvent { code: KeyCode::Enter, modifiers: KeyModifiers::Plain },
        &repo,
        current_branches,
    );

    assert_eq!(action, Some(Action::CreateBranch("new-branch".to_string())));
}

#[test]
fn branch_input_test_handle_key_event_escape() {
    let mut branch_input = BranchInput::new();
    branch_input.text_input.insert_str("some input");

    let repo = MockGitRepo;
    let current_branches = vec![];

    let action = branch_input.handle_key_event(
        KeyEvent { code: KeyCode::Esc, modifiers: KeyModifiers::Plain },
        &repo,
        current_branches,
    );

    assert_eq!(action, Some(Action::EndInputMode));
    assert!(branch_input.text_input.get_text().is_none());
}

#[test]
fn branch_input_test_handle_key_event_char() {
    let mut branch_input = BranchInput::new();
    branch_input.text_input.insert_str("tes");

    let repo = MockGitRepo;
    let current_branches = vec![];

    branch_input.handle_key_event(
        KeyEvent { code: KeyCode::Char('t'), modifiers: KeyModifiers::Plain },
        &repo,
        current_branches,
    );

    assert_eq!(branch_input.text_input.get_text(), Some("test".to_string()));
}

#[test]
fn branch_input_rejects_taken_name() {
    let mut branch_input = BranchInput::new();
    branch_input.text_input.insert_str("main");

    let repo = MockGitRepo;
    let main_branch = GitBranch::new("main".to_string());
    let current_branches = vec![&main_branch];

    let action = branch_input.handle_key_event(
        KeyEvent { code: KeyCode::Enter, modifiers: KeyModifiers::Plain },
        &repo,
        current_branches,
    );

    assert_eq!(action, None);
    assert_eq!(branch_input.get_state().is_valid, Some(false));
}

/// A repository stub whose name validation rejects names holding `'@'`.
struct AtSignRejectingRepo;

impl GitRepo for AtSignRejectingRepo {
    fn local_branches(&self) -> Result<Vec<GitBranch>, Error> {
        Ok(vec![])
    }
    fn stashes(&self) -> Result<Vec<GitStash>, Error> {
        Ok(vec![])
    }
    fn checkout_branch_from_name(&self, _branch_name: &str) -> Result<(), Error> {
        Ok(())
    }
    fn checkout_branch(&self, _branch: &GitBranch) -> Result<(), Error> {
        Ok(())
    }
    fn validate_branch_name(&self, name: &str) -> Result<bool, Error> {
        Ok(!name.contains('@'))
    }
    fn create_branch(&self, _to_create: &GitBranch) -> Result<(), Error> {
        Ok(())
    }
    fn delete_branch(&self, _to_delete: &GitBranch) -> Result<(), Error> {
        Ok(())
    }
    fn apply_stash(&self, _stash: &GitStash) -> Result<(), Error> {
        Ok(())
    }
    fn pop_stash(&self, _stash: &GitStash) -> Result<(), Error> {
        Ok(())
    }
    fn drop_stash(&self, _stash: &GitStash) -> Result<(), Error> {
        Ok(())
    }
    fn stash_with_message(&self, _message: &str) -> Result<bool, Error> {
        Ok(true)
    }
}

fn type_text(input: &mut BranchInput, repo: &AtSignRejectingRepo, branches: &[GitBranch], text: &str) {
    for c in text.chars() {
        let refs: Vec<&GitBranch> = branches.iter().collect();
        input.handle_key_event(
            KeyEvent { code: KeyCode::Char(c), modifiers: KeyModifiers::Plain },
            repo,
            refs,
        );
    }
}

#[test]
fn input_validation_scenario() {
    // typing an invalid name marks the field invalid and Enter does nothing;
    // after clearing, a unique well-formed name is accepted and submitted
    let repo = AtSignRejectingRepo;
    let mut main_branch = GitBranch::new("main".to_string());
    main_branch.is_head = true;
    let branches = vec![main_branch, GitBranch::new("feature-a".to_string())];

    let mut input = BranchInput::new();
    type_text(&mut input, &repo, &branches, "inv@lid");
    assert_eq!(input.get_state().is_valid, Some(false));

    let refs: Vec<&GitBranch> = branches.iter().collect();
    let action = input.handle_key_event(
        KeyEvent { code: KeyCode::Enter, modifiers: KeyModifiers::Plain },
        &repo,
        refs,
    );
    assert_eq!(action, None);

    let refs: Vec<&GitBranch> = branches.iter().collect();
    input.handle_key_event(
        KeyEvent { code: KeyCode::Esc, modifiers: KeyModifiers::Plain },
        &repo,
        refs,
    );

    type_text(&mut input, &repo, &branches, "feature-b");
    assert_eq!(input.get_state().is_valid, Some(true));

    let refs: Vec<&GitBranch> = branches.iter().collect();
    let action = input.handle_key_event(
        KeyEvent { code: KeyCode::Enter, modifiers: KeyModifiers::Plain },
        &repo,
        refs,
    );
    assert_eq!(action, Some(Action::CreateBranch("feature-b".to_string())));
}
