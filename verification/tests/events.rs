use uzumaki::events::{
    apply_clipboard_to_input, apply_key_to_input, build_clipboard_command, build_key_event, clipboard_event_data,
    clipboard_op_for_key, edit_input_type, handle_key_for_checkbox, resolve_clipboard_target,
    toggle_checkbox, key_event_step, ClipboardCommand, ClipboardOp, ClipboardTarget, FocusKind, InputKeyEffect,
    KeyAction, KeyRoute, RawKeyEvent,
};
use uzumaki::input::{EditKind, InputState, Key, NamedKey};
use uzumaki::selection::DomSelection;

#[test]
fn edit_kinds_have_input_types() {
    assert_eq!(edit_input_type(EditKind::Insert), "insertText");
    assert_eq!(edit_input_type(EditKind::DeleteBackward), "deleteContentBackward");
    assert_eq!(edit_input_type(EditKind::DeleteForward), "deleteContentForward");
    assert_eq!(edit_input_type(EditKind::DeleteWordBackward), "deleteWordBackward");
    assert_eq!(edit_input_type(EditKind::DeleteWordForward), "deleteWordForward");
}

#[test]
fn typing_into_an_input_reports_its_value() {
    let mut is = InputState::default();
    is.set_value("ab".to_string());
    is.set_cursor(2);
    match apply_key_to_input(&mut is, 7, 3, &Key::Character("c".to_string()), 0) {
        InputKeyEffect::Edit(e) => {
            assert_eq!((e.window_id, e.node_id), (7, 3));
            assert_eq!(e.value, "abc");
            assert_eq!(e.input_type, "insertText");
            assert_eq!(e.data, Some("c".to_string()));
        }
        _ => panic!("expected an edit"),
    }
    match apply_key_to_input(&mut is, 7, 3, &Key::Named(NamedKey::Backspace), 0) {
        InputKeyEffect::Edit(e) => {
            assert_eq!(e.value, "ab");
            assert_eq!(e.input_type, "deleteContentBackward");
            assert_eq!(e.data, None);
        }
        _ => panic!("expected an edit"),
    }
}

#[test]
fn escape_blurs_and_arrows_redraw() {
    let mut is = InputState::default();
    is.focused = true;
    assert!(matches!(
        apply_key_to_input(&mut is, 1, 2, &Key::Named(NamedKey::ArrowLeft), 0),
        InputKeyEffect::Redraw
    ));
    match apply_key_to_input(&mut is, 1, 2, &Key::Named(NamedKey::Escape), 0) {
        InputKeyEffect::Blur(f) => assert_eq!((f.window_id, f.node_id), (1, 2)),
        _ => panic!("expected a blur"),
    }
    assert!(!is.focused);
    assert!(matches!(
        apply_key_to_input(&mut is, 1, 2, &Key::Named(NamedKey::ArrowUp), 0),
        InputKeyEffect::Nothing
    ));
}

#[test]
fn checkbox_toggles_on_space_and_enter() {
    let mut checked = false;
    let e = handle_key_for_checkbox(&mut checked, 1, 9, true, &Key::Named(NamedKey::Space)).unwrap();
    assert!(checked);
    assert_eq!(e.value, "true");
    assert_eq!(e.input_type, "toggle");
    assert_eq!(e.data, Some("true".to_string()));
    let e = handle_key_for_checkbox(&mut checked, 1, 9, true, &Key::Named(NamedKey::Enter)).unwrap();
    assert!(!checked);
    assert_eq!(e.value, "false");
    assert!(handle_key_for_checkbox(&mut checked, 1, 9, true, &Key::Named(NamedKey::Tab)).is_none());
    assert!(handle_key_for_checkbox(&mut checked, 1, 9, false, &Key::Named(NamedKey::Space)).is_none());
    assert!(!checked);
    let e = toggle_checkbox(&mut checked, 2, 3);
    assert!(checked);
    assert_eq!(e.value, "true");
}

#[test]
fn clipboard_target_prefers_focused_input() {
    let sel = Some(DomSelection::new(4, 1, 3));
    assert_eq!(resolve_clipboard_target(Some(2), sel), Some(ClipboardTarget::Input(2)));
    assert_eq!(resolve_clipboard_target(None, sel), Some(ClipboardTarget::ViewSelection(4)));
    assert_eq!(resolve_clipboard_target(None, Some(DomSelection::new(4, 2, 2))), None);
    assert_eq!(resolve_clipboard_target(None, None), None);
}

#[test]
fn clipboard_shortcuts() {
    let c = |s: &str| Key::Character(s.to_string());
    assert_eq!(clipboard_op_for_key(true, &c("c"), 1), Some(ClipboardOp::Copy));
    assert_eq!(clipboard_op_for_key(true, &c("X"), 1), Some(ClipboardOp::Cut));
    assert_eq!(clipboard_op_for_key(true, &c("v"), 5), Some(ClipboardOp::Paste));
    assert_eq!(clipboard_op_for_key(true, &c("v"), 4), None);
    assert_eq!(clipboard_op_for_key(false, &c("c"), 1), None);
    assert_eq!(clipboard_op_for_key(true, &c("z"), 1), None);
    assert_eq!(clipboard_op_for_key(true, &Key::Named(NamedKey::Enter), 1), None);
}

#[test]
fn clipboard_commands() {
    let t = Some(ClipboardTarget::Input(3));
    match build_clipboard_command(ClipboardOp::Copy, t, false, "hi".to_string(), None) {
        Some(ClipboardCommand::Copy { target, selection_text }) => {
            assert_eq!(target, Some(3));
            assert_eq!(selection_text, "hi");
        }
        _ => panic!("expected copy"),
    }
    assert!(build_clipboard_command(ClipboardOp::Copy, t, true, "hi".to_string(), None).is_none());
    assert!(build_clipboard_command(ClipboardOp::Cut, t, false, String::new(), None).is_none());
    assert!(build_clipboard_command(ClipboardOp::Copy, None, false, "hi".to_string(), None).is_none());
    let v = Some(ClipboardTarget::ViewSelection(8));
    match build_clipboard_command(ClipboardOp::Cut, v, true, "x".to_string(), None) {
        Some(ClipboardCommand::Cut { target, selection_text, is_input }) => {
            assert_eq!(target, Some(8));
            assert_eq!(selection_text, "x");
            assert!(!is_input);
        }
        _ => panic!("expected cut"),
    }
    let cmd = build_clipboard_command(ClipboardOp::Paste, t, true, String::new(), Some("p".to_string())).unwrap();
    match &cmd {
        ClipboardCommand::Paste { target, clipboard_text, is_input } => {
            assert_eq!(*target, Some(3));
            assert_eq!(clipboard_text.as_deref(), Some("p"));
            assert!(*is_input);
        }
        _ => panic!("expected paste"),
    }
    let e = clipboard_event_data(&cmd, 5);
    assert_eq!(e.window_id, 5);
    assert_eq!(e.node_id, Some(3));
    assert_eq!(e.selection_text, None);
    assert_eq!(e.clipboard_text, Some("p".to_string()));
}

#[test]
fn raw_key_events() {
    let f5 = Key::Named(NamedKey::F5);
    assert!(build_key_event(1, None, true, &f5, "F5".to_string(), String::new(), 0, false).is_none());
    match build_key_event(1, Some(4), false, &f5, "F5".to_string(), "KeyF5".to_string(), 2, true) {
        Some(RawKeyEvent::KeyUp(d)) => {
            assert_eq!(d.key, "F5");
            assert_eq!(d.code, "KeyF5");
            assert_eq!(d.node_id, Some(4));
            assert_eq!(d.modifiers, 2);
            assert!(d.repeat);
        }
        _ => panic!("expected key up"),
    }
    assert!(build_key_event(1, None, true, &Key::Unidentified, String::new(), String::new(), 0, false).is_none());
    assert!(matches!(
        build_key_event(1, None, true, &Key::Character("q".to_string()), "q".to_string(), String::new(), 0, false),
        Some(RawKeyEvent::KeyDown(_))
    ));
}

#[test]
fn key_path_order() {
    let f5 = Key::Named(NamedKey::F5);
    let ctrl_c = Key::Character("c".to_string());
    let a = Key::Character("a".to_string());
    assert_eq!(key_event_step(FocusKind::TextInput, true, &f5, 0, true), KeyAction::Reload);
    assert_eq!(key_event_step(FocusKind::TextInput, true, &a, 0, true), KeyAction::Prevented);
    assert_eq!(
        key_event_step(FocusKind::TextInput, true, &ctrl_c, 1, false),
        KeyAction::Clipboard(ClipboardOp::Copy, KeyRoute::Input)
    );
    assert_eq!(key_event_step(FocusKind::TextInput, true, &a, 0, false), KeyAction::Route(KeyRoute::Input));
    assert_eq!(
        key_event_step(FocusKind::Checkbox, true, &Key::Named(NamedKey::Space), 0, false),
        KeyAction::Route(KeyRoute::Checkbox)
    );
    assert_eq!(key_event_step(FocusKind::Nothing, true, &a, 4, false), KeyAction::Route(KeyRoute::ViewSelection));
    assert_eq!(key_event_step(FocusKind::Other, true, &a, 0, false), KeyAction::Route(KeyRoute::Nothing));
    assert_eq!(key_event_step(FocusKind::TextInput, false, &a, 0, false), KeyAction::Route(KeyRoute::Nothing));
    // An unidentified key is never reported, so JavaScript cannot prevent it.
    assert_eq!(
        key_event_step(FocusKind::TextInput, true, &Key::Unidentified, 0, true),
        KeyAction::Route(KeyRoute::Input)
    );
}

#[test]
fn clipboard_commands_on_an_input() {
    let mut is = InputState::default();
    is.insert_text("hello world");
    is.set_selection(0, 5);
    let copy = ClipboardCommand::Copy { target: Some(3), selection_text: "hello".to_string() };
    assert!(apply_clipboard_to_input(&mut is, &copy, 1).is_none());
    assert_eq!(is.model.text(), "hello world");
    let cut = ClipboardCommand::Cut { target: Some(3), selection_text: "hello".to_string(), is_input: true };
    let e = apply_clipboard_to_input(&mut is, &cut, 1).unwrap();
    assert_eq!((e.node_id, e.value.as_str(), e.input_type.as_str(), e.data), (3, " world", "deleteByCut", None));
    // Nothing is selected now, so a second cut deletes nothing.
    assert!(apply_clipboard_to_input(&mut is, &cut, 1).is_none());
    assert_eq!(is.model.text(), " world");
    let paste = ClipboardCommand::Paste { target: Some(3), clipboard_text: Some("hi".to_string()), is_input: true };
    let e = apply_clipboard_to_input(&mut is, &paste, 1).unwrap();
    assert_eq!(e.value, "hi world");
    assert_eq!(e.input_type, "insertFromPaste");
    assert_eq!(e.data, Some("hi".to_string()));
    let view_paste = ClipboardCommand::Paste { target: Some(9), clipboard_text: Some("x".to_string()), is_input: false };
    assert!(apply_clipboard_to_input(&mut is, &view_paste, 1).is_none());
    assert_eq!(is.model.text(), "hi world");
}
