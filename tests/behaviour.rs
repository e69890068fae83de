use clipfix::{
    normalize_whitespace, resolve, Action, App, ClipboardError, KeyCode, KeyPress, MediaKey,
    ModifierKey, Modifiers,
};

fn err(app: &App) -> Option<String> {
    app.last_error().map(|e| e.to_string())
}

fn key(code: KeyCode) -> KeyPress {
    KeyPress::new(code, Modifiers::none())
}

fn ctrl_c() -> KeyPress {
    KeyPress::new(KeyCode::Char('c'), Modifiers::control_only())
}

const STAMP: &str = "2024-05-06 07:08:09";

#[test]
fn normalize_collapses_runs() {
    assert_eq!(normalize_whitespace("a   b\tc"), "a b c");
    assert_eq!(normalize_whitespace("  hi  there "), " hi there ");
    assert_eq!(normalize_whitespace("x\r\n\n y"), "x y");
}

#[test]
fn normalize_keeps_leading_and_trailing_space() {
    assert_eq!(normalize_whitespace("\t\tword\n"), " word ");
    assert_eq!(normalize_whitespace("   "), " ");
}

#[test]
fn normalize_empty_string() {
    assert_eq!(normalize_whitespace(""), "");
}

#[test]
fn normalize_unicode_whitespace() {
    assert_eq!(normalize_whitespace("a\u{a0}\u{2003}b\u{3000}c"), "a b c");
}

#[test]
fn normalize_is_idempotent_on_examples() {
    for s in ["a   b\tc", "  hi  there ", "", " ", "\n\n", "x y", "p\u{85}\u{2028}q"] {
        let once = normalize_whitespace(s);
        let twice = normalize_whitespace(&once);
        assert_eq!(once, twice);
    }
}

#[test]
fn normalize_without_whitespace_is_identity() {
    for s in ["", "abc", "héllo-wörld", "a_b.c!"] {
        assert_eq!(normalize_whitespace(s), s);
    }
}

#[test]
fn resolver_bindings() {
    assert_eq!(resolve(&key(KeyCode::F(1))), Some(Action::QuickFix));
    assert_eq!(resolve(&key(KeyCode::F(2))), Some(Action::PasteFromClipboard));
    assert_eq!(resolve(&key(KeyCode::F(3))), Some(Action::RemoveExtraSpaces));
    assert_eq!(resolve(&key(KeyCode::F(4))), Some(Action::CopyToClipboard));
    assert_eq!(resolve(&key(KeyCode::F(5))), Some(Action::ClearText));
    assert_eq!(resolve(&ctrl_c()), Some(Action::Exit));
}

#[test]
fn resolver_unmapped_keys() {
    assert_eq!(resolve(&key(KeyCode::F(6))), None);
    assert_eq!(resolve(&key(KeyCode::Char('c'))), None);
    assert_eq!(resolve(&key(KeyCode::Enter)), None);
    let mut shift = Modifiers::none();
    shift.shift = true;
    assert_eq!(resolve(&KeyPress::new(KeyCode::F(2), shift)), None);
    let mut ctrl_shift = Modifiers::control_only();
    ctrl_shift.shift = true;
    assert_eq!(resolve(&KeyPress::new(KeyCode::Char('c'), ctrl_shift)), None);
}

#[test]
fn action_labels() {
    assert_eq!(Action::PasteFromClipboard.as_str(), "Pasted text from clipboard");
    assert_eq!(Action::RemoveExtraSpaces.as_str(), "Removed extra spaces");
    assert_eq!(Action::CopyToClipboard.as_str(), "Copied text to clipboard");
    assert_eq!(Action::ClearText.as_str(), "Cleared text");
    assert_eq!(Action::QuickFix.as_str(), "Quick fix applied. Your clipboard was updated.");
    assert_eq!(Action::Exit.as_str(), "Exiting application");
}

#[test]
fn key_labels() {
    assert_eq!(key(KeyCode::F(2)).label(), "F2");
    assert_eq!(key(KeyCode::F(12)).label(), "F12");
    assert_eq!(key(KeyCode::F(255)).label(), "F255");
    assert_eq!(key(KeyCode::F(0)).label(), "F0");
    assert_eq!(key(KeyCode::Char('x')).label(), "x");
    assert_eq!(key(KeyCode::Char(' ')).label(), "Space");
    assert_eq!(key(KeyCode::PageUp).label(), "Page Up");
    assert_eq!(ctrl_c().label(), "Control + c");
    let mut m = Modifiers::none();
    m.shift = true;
    m.alt = true;
    m.meta = true;
    assert_eq!(KeyPress::new(KeyCode::Enter, m).label(), "Shift+Alt+Meta + Enter");
}

#[test]
fn error_messages() {
    assert_eq!(ClipboardError::Unavailable.message(), "Clipboard unavailable");
    assert_eq!(ClipboardError::WriteFailure("refused".to_string()).message(), "refused");
}

#[test]
fn clear_text_always_empties() {
    let mut app = App::without_clipboard();
    app.step_with(key(KeyCode::F(2)), Some("some text".to_string()), Ok(()), STAMP);
    app.step_with(key(KeyCode::F(4)), None, Err(ClipboardError::Unavailable), STAMP);
    assert!(err(&app).is_some());
    let sent = app.step_with(key(KeyCode::F(5)), Some("ignored".to_string()), Ok(()), STAMP);
    assert_eq!(sent, None);
    assert_eq!(app.text(), "");
    assert_eq!(app.last_action(), Some(Action::ClearText));
    assert_eq!(err(&app), Some(format!("{}: Clipboard unavailable", STAMP)));
}

#[test]
fn exit_ends_the_run() {
    let mut app = App::without_clipboard();
    app.set_text("keep".to_string());
    app.on_key_pressed(ctrl_c());
    assert!(app.exit_requested());
    assert_eq!(app.last_action(), Some(Action::Exit));
    assert_eq!(app.last_pressed_key(), Some(ctrl_c()));
    app.on_key_pressed(key(KeyCode::F(5)));
    let sent = app.step_with(key(KeyCode::F(1)), Some("new".to_string()), Ok(()), STAMP);
    assert_eq!(sent, None);
    assert!(app.exit_requested());
    assert_eq!(app.text(), "keep");
    assert_eq!(app.last_action(), Some(Action::Exit));
    assert_eq!(app.last_pressed_key(), Some(ctrl_c()));
    assert_eq!(err(&app), None);
}

#[test]
fn unbound_key_only_records_key() {
    let mut app = App::without_clipboard();
    app.step_with(key(KeyCode::F(2)), Some("a  b".to_string()), Ok(()), STAMP);
    app.step_with(key(KeyCode::F(4)), None, Err(ClipboardError::Unavailable), STAMP);
    let before_error = err(&app);
    let unbound = key(KeyCode::Char('q'));
    let sent = app.step_with(unbound, Some("other".to_string()), Err(ClipboardError::Unavailable), STAMP);
    assert_eq!(sent, None);
    assert_eq!(app.text(), "a  b");
    assert_eq!(app.last_action(), Some(Action::CopyToClipboard));
    assert_eq!(err(&app), before_error);
    assert_eq!(app.last_pressed_key(), Some(unbound));
    app.on_key_pressed(key(KeyCode::F(9)));
    assert_eq!(app.text(), "a  b");
    assert_eq!(app.last_action(), Some(Action::CopyToClipboard));
    assert_eq!(err(&app), before_error);
    assert_eq!(app.last_pressed_key(), Some(key(KeyCode::F(9))));
}

#[test]
fn quick_fix_with_clipboard_present() {
    let mut app = App::without_clipboard();
    let sent = app.step_with(key(KeyCode::F(1)), Some("a   b\tc".to_string()), Ok(()), STAMP);
    assert_eq!(sent, Some("a b c".to_string()));
    assert_eq!(app.text(), "a b c");
    assert_eq!(app.last_action(), Some(Action::QuickFix));
    assert_eq!(err(&app), None);
}

#[test]
fn quick_fix_keeps_text_when_copy_fails() {
    let mut app = App::without_clipboard();
    let failure = ClipboardError::WriteFailure("held by another party".to_string());
    let sent = app.step_with(key(KeyCode::F(1)), Some(" x  y ".to_string()), Err(failure), STAMP);
    assert_eq!(sent, Some(" x y ".to_string()));
    assert_eq!(app.text(), " x y ");
    assert_eq!(err(&app), Some(format!("{}: held by another party", STAMP)));
}

#[test]
fn quick_fix_read_miss_normalizes_existing_text() {
    let mut app = App::without_clipboard();
    app.set_text("p \n q".to_string());
    let sent = app.step_with(key(KeyCode::F(1)), None, Ok(()), STAMP);
    assert_eq!(sent, Some("p q".to_string()));
    assert_eq!(app.text(), "p q");
}

#[test]
fn copy_without_clipboard_reports_unavailable() {
    let mut app = App::without_clipboard();
    assert!(!app.has_clipboard());
    app.set_text("payload".to_string());
    app.on_key_pressed(key(KeyCode::F(4)));
    assert_eq!(app.text(), "payload");
    assert_eq!(app.last_action(), Some(Action::CopyToClipboard));
    let err = err(&app).unwrap();
    assert!(err.ends_with(": Clipboard unavailable"));
    // the stamp is YYYY-MM-DD hh:mm:ss
    let stamp: Vec<char> = err.chars().take(19).collect();
    assert_eq!(err.chars().count(), 19 + ": Clipboard unavailable".len());
    assert_eq!(stamp[4], '-');
    assert_eq!(stamp[7], '-');
    assert_eq!(stamp[10], ' ');
    assert_eq!(stamp[13], ':');
    assert_eq!(stamp[16], ':');
}

#[test]
fn paste_without_clipboard_is_silent() {
    let mut app = App::without_clipboard();
    app.set_text("stay".to_string());
    app.on_key_pressed(key(KeyCode::F(2)));
    assert_eq!(app.text(), "stay");
    assert_eq!(app.last_action(), Some(Action::PasteFromClipboard));
    assert_eq!(err(&app), None);
}

#[test]
fn quick_fix_without_clipboard() {
    let mut app = App::without_clipboard();
    app.set_text("a \t b".to_string());
    app.on_key_pressed(key(KeyCode::F(1)));
    assert_eq!(app.text(), "a b");
    assert_eq!(app.last_action(), Some(Action::QuickFix));
    assert!(err(&app).unwrap().ends_with(": Clipboard unavailable"));
}

#[test]
fn remove_extra_spaces_key() {
    let mut app = App::without_clipboard();
    app.set_text("one  two\n\nthree".to_string());
    app.on_key_pressed(key(KeyCode::F(3)));
    assert_eq!(app.text(), "one two three");
    assert_eq!(app.last_action(), Some(Action::RemoveExtraSpaces));
}

#[test]
fn paste_normalize_clear_scenario() {
    let mut app = App::without_clipboard();
    assert_eq!(app.text(), "");
    app.step_with(key(KeyCode::F(2)), Some("  hi  there ".to_string()), Ok(()), STAMP);
    assert_eq!(app.text(), "  hi  there ");
    app.step_with(key(KeyCode::F(3)), None, Ok(()), STAMP);
    assert_eq!(app.text(), " hi there ");
    app.step_with(key(KeyCode::F(5)), None, Ok(()), STAMP);
    assert_eq!(app.text(), "");
    assert_eq!(err(&app), None);
}

#[test]
fn fresh_app_state() {
    let app = App::with_system_clipboard();
    assert_eq!(app.text(), "");
    assert_eq!(app.last_pressed_key(), None);
    assert_eq!(app.last_action(), None);
    assert_eq!(err(&app), None);
    assert!(!app.exit_requested());
}

#[test]
fn direct_text_edits() {
    let mut app = App::without_clipboard();
    app.set_text(" a  b ".to_string());
    app.remove_extra_spaces();
    assert_eq!(app.text(), " a b ");
    app.clear_text();
    assert_eq!(app.text(), "");
    assert_eq!(app.last_action(), None);
}

#[test]
fn key_labels_of_special_keys() {
    assert_eq!(key(KeyCode::CapsLock).label(), "Caps Lock");
    assert_eq!(key(KeyCode::KeypadBegin).label(), "Begin");
    assert_eq!(key(KeyCode::Media(MediaKey::PlayPause)).label(), "Play/Pause");
    assert_eq!(key(KeyCode::Media(MediaKey::TrackNext)).label(), "Next Track");
    assert_eq!(key(KeyCode::Modifier(ModifierKey::RightControl)).label(), "Right Ctrl");
    assert_eq!(key(KeyCode::Modifier(ModifierKey::IsoLevel3Shift)).label(), "Iso Level 3 Shift");
}

#[test]
fn function_key_with_modifier_only_records_key() {
    let mut app = App::without_clipboard();
    app.set_text("x  y".to_string());
    let mut alt = Modifiers::none();
    alt.alt = true;
    let pressed = KeyPress::new(KeyCode::F(5), alt);
    app.on_key_pressed(pressed);
    assert_eq!(app.text(), "x  y");
    assert_eq!(app.last_action(), None);
    assert_eq!(err(&app), None);
    assert_eq!(app.last_pressed_key(), Some(pressed));
}

#[test]
fn clear_key_after_failure_keeps_error() {
    let mut app = App::without_clipboard();
    app.set_text("data".to_string());
    app.on_key_pressed(key(KeyCode::F(4)));
    let pending = err(&app);
    assert!(pending.is_some());
    app.on_key_pressed(key(KeyCode::F(5)));
    assert_eq!(app.text(), "");
    assert_eq!(app.last_action(), Some(Action::ClearText));
    assert_eq!(err(&app), pending);
    assert!(!app.exit_requested());
}

#[test]
fn split_step_hands_text_to_write() {
    let mut app = App::without_clipboard();
    let sent = app.begin_step(key(KeyCode::F(1)), Some("m  n".to_string()));
    assert_eq!(sent, Some("m n".to_string()));
    assert_eq!(err(&app), None);
    app.finish_step(key(KeyCode::F(1)), Err(ClipboardError::WriteFailure("no".to_string())), STAMP);
    assert_eq!(app.text(), "m n");
    assert_eq!(err(&app), Some(format!("{}: no", STAMP)));
}
