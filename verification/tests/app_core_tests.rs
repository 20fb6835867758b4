use gitlists::Action;
use gitlists::App;
use gitlists::ErrorComponent;
use gitlists::KeyCode;
use gitlists::KeyEvent;
use gitlists::KeyModifiers;
use gitlists::Mode;
use gitlists::TerminalDirective;
use gitlists::View;

fn key(code: KeyCode, modifiers: KeyModifiers) -> KeyEvent {
    KeyEvent { code, modifiers }
}

#[test]
fn ctrl_c_always_quits() {
    let mut app = App::new();
    assert_eq!(
        app.global_key_action(key(KeyCode::Char('c'), KeyModifiers::Control)),
        Some(Action::Quit)
    );
    app.apply_action(&Action::StartInputMode);
    assert_eq!(
        app.global_key_action(key(KeyCode::Char('C'), KeyModifiers::Control)),
        Some(Action::Quit)
    );
}

#[test]
fn escape_quits_only_in_default_mode() {
    let mut app = App::new();
    assert_eq!(app.global_key_action(key(KeyCode::Esc, KeyModifiers::Plain)), Some(Action::Quit));

    app.apply_action(&Action::StartInputMode);
    assert_eq!(app.global_key_action(key(KeyCode::Esc, KeyModifiers::Plain)), None);
}

#[test]
fn tab_switches_the_view() {
    let mut app = App::new();
    assert_eq!(
        app.global_key_action(key(KeyCode::Tab, KeyModifiers::Plain)),
        Some(Action::ToggleView)
    );
    let d = app.apply_action(&Action::ToggleView);
    assert_eq!(d, TerminalDirective::ClearThenRender);
    assert_eq!(app.view, View::Stashes);
    app.apply_action(&Action::ToggleView);
    assert_eq!(app.view, View::Branches);
}

#[test]
fn error_action_enters_modal_error_mode() {
    let mut app = App::new();
    let d = app.apply_action(&Action::Error("broken".to_string()));
    assert_eq!(d, TerminalDirective::Clear);
    assert_eq!(app.mode, Mode::Error);
    assert_eq!(app.error_component.message, Some("broken".to_string()));

    let d = app.apply_action(&Action::ExitError);
    assert_eq!(d, TerminalDirective::Clear);
    assert_eq!(app.mode, Mode::Default);
}

#[test]
fn quit_suspend_resume_set_the_flags() {
    let mut app = App::new();
    app.apply_action(&Action::Suspend);
    assert!(app.should_suspend);
    app.apply_action(&Action::Resume);
    assert!(!app.should_suspend);
    app.apply_action(&Action::Quit);
    assert!(app.should_quit);
}

#[test]
fn resize_and_render_directives() {
    let mut app = App::new();
    assert_eq!(
        app.apply_action(&Action::Resize(80, 24)),
        TerminalDirective::ResizeThenRender(80, 24)
    );
    assert_eq!(app.apply_action(&Action::Render), TerminalDirective::Draw);
    assert_eq!(app.apply_action(&Action::Refresh), TerminalDirective::ClearThenRender);
    assert_eq!(app.apply_action(&Action::Tick), TerminalDirective::Proceed);
}

#[test]
fn error_view_scrolls_within_the_message() {
    let mut e = ErrorComponent::new();
    e.set_message("one\ntwo\nthree".to_string());
    e.set_last_height(1);

    assert_eq!(e.handle_key_events(key(KeyCode::Down, KeyModifiers::Plain)), None);
    assert_eq!(e.scroll, 1);
    e.handle_key_events(key(KeyCode::Down, KeyModifiers::Plain));
    assert_eq!(e.scroll, 2);
    // bottom reached: three lines, height one, scroll two
    e.handle_key_events(key(KeyCode::Down, KeyModifiers::Plain));
    assert_eq!(e.scroll, 2);

    e.handle_key_events(key(KeyCode::Up, KeyModifiers::Plain));
    assert_eq!(e.scroll, 1);

    let action = e.handle_key_events(key(KeyCode::Esc, KeyModifiers::Plain));
    assert_eq!(action, Some(Action::ExitError));
    assert_eq!(e.message, None);
    assert_eq!(e.scroll, 0);
}

#[test]
fn error_view_scroll_stops_at_the_top() {
    let mut e = ErrorComponent::new();
    e.set_message("only".to_string());
    e.handle_key_events(key(KeyCode::Up, KeyModifiers::Plain));
    assert_eq!(e.scroll, 0);
}
