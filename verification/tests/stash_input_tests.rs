use gitlists::Action;
use gitlists::KeyCode;
use gitlists::KeyEvent;
use gitlists::KeyModifiers;
use gitlists::StashInput;

#[test]
fn stash_input_test_handle_key_event_submit() {
    let mut stash_input = StashInput::new();
    stash_input.text_input.insert_str("test stash");

    let action = stash_input.handle_key_event(KeyEvent {
        code: KeyCode::Enter,
        modifiers: KeyModifiers::Plain,
    });

    assert_eq!(action, Some(Action::CreateStash("test stash".to_string())));
}

#[test]
fn stash_input_test_handle_key_event_escape() {
    let mut stash_input = StashInput::new();
    stash_input.text_input.insert_str("some input");

    let action = stash_input.handle_key_event(KeyEvent {
        code: KeyCode::Esc,
        modifiers: KeyModifiers::Plain,
    });

    assert_eq!(action, Some(Action::EndInputMode));
    assert!(stash_input.text_input.get_text().is_none());
}

#[test]
fn stash_input_test_handle_key_event_char() {
    let mut stash_input = StashInput::new();
    stash_input.text_input.insert_str("some inpu");

    stash_input.handle_key_event(KeyEvent {
        code: KeyCode::Char('t'),
        modifiers: KeyModifiers::Plain,
    });

    assert_eq!(stash_input.text_input.get_text(), Some("some input".to_string()));
}
