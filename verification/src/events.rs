use vstd::prelude::*;

use crate::element::checkbox_value_string;
use crate::input::{
    key_restarts_blink, restarted, ctrl_held, key_outcome, op_delete, op_insert, op_key, EditEvent, EditKind, InputState, InputView, Key, KeyOutcome,
    KeyResult, NamedKey,
};
use crate::textkit::flatten;
use crate::selection::{DomSelection, NodeId};

verus! {

/// A key going down or up.
pub struct KeyEventData {
    pub window_id: u32,
    pub node_id: Option<NodeId>,
    pub key: String,
    pub code: String,
    pub key_code: u32,
    pub modifiers: u32,
    pub repeat: bool,
}

/// A window that finished loading or is closing.
pub struct WindowLoadEventData {
    pub window_id: u32,
}

/// A window's new size.
pub struct ResizeEventData {
    pub window_id: u32,
    pub width: u32,
    pub height: u32,
}

/// A change of an input's value.
pub struct InputEventData {
    pub window_id: u32,
    pub node_id: NodeId,
    pub value: String,
    pub input_type: String,
    pub data: Option<String>,
}

/// A node gaining or losing focus.
pub struct FocusEventData {
    pub window_id: u32,
    pub node_id: NodeId,
}

/// A copy, cut or paste.
pub struct ClipboardEventData {
    pub window_id: u32,
    pub node_id: Option<NodeId>,
    pub selection_text: Option<String>,
    pub clipboard_text: Option<String>,
}

// ── Key events ──────────────────────────────────────────────────────────────

/// The raw event a key press or release is reported with.
pub enum RawKeyEvent {
    /// A key went down.
    KeyDown(KeyEventData),
    /// A key went up.
    KeyUp(KeyEventData),
}

/// Whether a key event is a press of F5, which reloads the app.
pub open spec fn is_reload_key(pressed: bool, key: Key) -> bool {
    pressed && key == Key::Named(NamedKey::F5)
}

/// Whether a key event is reported to JavaScript: every key but an
/// unidentified one and a pressed F5.
pub open spec fn reports_key(pressed: bool, key: Key) -> bool {
    !is_reload_key(pressed, key) && !(key is Unidentified)
}

/// Builds the raw key event: a pressed F5 (hot reload) and an unidentified
/// key are not reported; any other key is reported as going down or up,
/// under its name `key_name` and physical code `code`, to the focused node.
pub fn build_key_event(
    window_id: u32,
    focused: Option<NodeId>,
    pressed: bool,
    key: &Key,
    key_name: String,
    code: String,
    modifiers: u32,
    repeat: bool,
) -> (r: Option<RawKeyEvent>)
    ensures
        !reports_key(pressed, *key) ==> r is None,
        reports_key(pressed, *key) ==> {
            let d = KeyEventData {
                window_id,
                node_id: focused,
                key: key_name,
                code,
                key_code: 0,
                modifiers,
                repeat,
            };
            if pressed {
                r == Some(RawKeyEvent::KeyDown(d))
            } else {
                r == Some(RawKeyEvent::KeyUp(d))
            }
        },
{
    if pressed {
        if let Key::Named(NamedKey::F5) = key {
            return None;
        }
    }
    if let Key::Unidentified = key {
        return None;
    }
    let data = KeyEventData { window_id, node_id: focused, key: key_name, code, key_code: 0, modifiers, repeat };
    if pressed {
        Some(RawKeyEvent::KeyDown(data))
    } else {
        Some(RawKeyEvent::KeyUp(data))
    }
}

// ── The key path ────────────────────────────────────────────────────────────

/// What kind of node has keyboard focus.
#[derive(Clone, Copy, Debug, PartialEq, Eq, Structural)]
pub enum FocusKind {
    /// A text input.
    TextInput,
    /// A checkbox.
    Checkbox,
    /// Another element.
    Other,
    /// No node has focus.
    Nothing,
}

/// Where a key goes after JavaScript has seen it.
#[derive(Clone, Copy, Debug, PartialEq, Eq, Structural)]
pub enum KeyRoute {
    /// To the focused input (`apply_key_to_input`); if the input gives up
    /// focus, the key then goes to the view selection.
    Input,
    /// To the focused checkbox (`handle_key_for_checkbox`).
    Checkbox,
    /// To the view selection (`view_selection_for_key`).
    ViewSelection,
    /// Nowhere.
    Nothing,
}

/// What the window does with a key event.
#[derive(Clone, Copy, Debug, PartialEq, Eq, Structural)]
pub enum KeyAction {
    /// A pressed F5: reload the app; nothing else happens.
    Reload,
    /// JavaScript prevented the reported event: nothing else happens.
    Prevented,
    /// A clipboard shortcut: carry out the operation
    /// (`build_clipboard_command`); when it gives no command, the key goes
    /// on along the route.
    Clipboard(ClipboardOp, KeyRoute),
    /// The key goes along the route.
    Route(KeyRoute),
}

/// The route of a key by what has focus: a released key goes nowhere; a
/// pressed one goes to the focused input or checkbox, or to the view
/// selection when nothing has focus.
pub open spec fn key_route(focus: FocusKind, pressed: bool) -> KeyRoute {
    if !pressed {
        KeyRoute::Nothing
    } else {
        match focus {
            FocusKind::TextInput => KeyRoute::Input,
            FocusKind::Checkbox => KeyRoute::Checkbox,
            FocusKind::Nothing => KeyRoute::ViewSelection,
            FocusKind::Other => KeyRoute::Nothing,
        }
    }
}

/// The key path of a window, in order: a pressed F5 reloads; a reported key
/// whose event JavaScript prevented stops there; a clipboard shortcut is
/// carried out; the rest goes to the focused input, the focused checkbox, or
/// the view selection.
pub open spec fn key_action(focus: FocusKind, pressed: bool, key: Key, modifiers: u32, js_prevented: bool) -> KeyAction {
    if is_reload_key(pressed, key) {
        KeyAction::Reload
    } else if reports_key(pressed, key) && js_prevented {
        KeyAction::Prevented
    } else {
        match clipboard_op_of(pressed, key, modifiers) {
            Some(op) => KeyAction::Clipboard(op, key_route(focus, pressed)),
            None => KeyAction::Route(key_route(focus, pressed)),
        }
    }
}

/// Decides what the window does with a key event, once JavaScript has
/// answered whether it prevented the reported event (see `key_action`;
/// `js_prevented` counts only for a reported key).
pub fn key_event_step(focus: FocusKind, pressed: bool, key: &Key, modifiers: u32, js_prevented: bool) -> (a:
    KeyAction)
    ensures
        a == key_action(focus, pressed, *key, modifiers, js_prevented),
{
    let reload = pressed && match key {
        Key::Named(NamedKey::F5) => true,
        _ => false,
    };
    if reload {
        return KeyAction::Reload;
    }
    let reported = match key {
        Key::Unidentified => false,
        _ => true,
    };
    if reported && js_prevented {
        return KeyAction::Prevented;
    }
    let route = if !pressed {
        KeyRoute::Nothing
    } else {
        match focus {
            FocusKind::TextInput => KeyRoute::Input,
            FocusKind::Checkbox => KeyRoute::Checkbox,
            FocusKind::Nothing => KeyRoute::ViewSelection,
            FocusKind::Other => KeyRoute::Nothing,
        }
    };
    match clipboard_op_for_key(pressed, key, modifiers) {
        Some(op) => KeyAction::Clipboard(op, route),
        None => KeyAction::Route(route),
    }
}

/// A key whose reported event JavaScript prevented is handled by nothing,
/// and a pressed F5 only reloads.
pub proof fn law_prevented_keys_stop(focus: FocusKind, pressed: bool, key: Key, modifiers: u32)
    ensures
        reports_key(pressed, key) ==> key_action(focus, pressed, key, modifiers, true) == KeyAction::Prevented,
        is_reload_key(pressed, key) ==> key_action(focus, pressed, key, modifiers, true) == KeyAction::Reload
            && key_action(focus, pressed, key, modifiers, false) == KeyAction::Reload,
        !pressed ==> (key_action(focus, pressed, key, modifiers, false) == KeyAction::Route(KeyRoute::Nothing)),
{
}

// ── Input events ────────────────────────────────────────────────────────────

/// The `inputType` an edit is reported under.
pub open spec fn input_type_of(kind: EditKind) -> Seq<char> {
    match kind {
        EditKind::Insert => "insertText"@,
        EditKind::DeleteBackward => "deleteContentBackward"@,
        EditKind::DeleteForward => "deleteContentForward"@,
        EditKind::DeleteWordBackward => "deleteWordBackward"@,
        EditKind::DeleteWordForward => "deleteWordForward"@,
    }
}

/// The `inputType` of an edit.
pub fn edit_input_type(kind: EditKind) -> (s: &'static str)
    ensures
        s@ == input_type_of(kind),
{
    match kind {
        EditKind::Insert => "insertText",
        EditKind::DeleteBackward => "deleteContentBackward",
        EditKind::DeleteForward => "deleteContentForward",
        EditKind::DeleteWordBackward => "deleteWordBackward",
        EditKind::DeleteWordForward => "deleteWordForward",
    }
}

/// The input event an edit of a focused input is reported with: the input's
/// new value, the edit's type and the inserted text.
pub fn input_event_for_edit(window_id: u32, node_id: NodeId, value: String, edit: EditEvent) -> (e:
    InputEventData)
    ensures
        e.window_id == window_id,
        e.node_id == node_id,
        e.value == value,
        e.input_type@ == input_type_of(edit.kind),
        e.data == edit.inserted,
{
    InputEventData {
        window_id,
        node_id,
        value,
        input_type: String::from_str(edit_input_type(edit.kind)),
        data: edit.inserted,
    }
}

/// What a key press on the focused input leads to.
pub enum InputKeyEffect {
    /// The input's value changed: report it, and redraw.
    Edit(InputEventData),
    /// The input gave up focus: report it, clear the focus, and redraw.
    Blur(FocusEventData),
    /// The selection or the view changed: redraw.
    Redraw,
    /// Nothing happened.
    Nothing,
}

/// Applies a pressed key to the focused input `node_id` (see `op_key`) and
/// says what follows: an edit is reported with the new value, its type and
/// the inserted text; a blur leaves the input unfocused and is reported.
pub fn apply_key_to_input(
    is: &mut InputState,
    window_id: u32,
    node_id: NodeId,
    key: &Key,
    modifiers: u32,
) -> (r: InputKeyEffect)
    ensures
        match op_key(old(is)@, *key, modifiers).1 {
            KeyOutcome::Edit(kind, ins) => {
                &&& final(is)@ == op_key(old(is)@, *key, modifiers).0
                &&& r matches InputKeyEffect::Edit(e) && {
                    &&& e.window_id == window_id
                    &&& e.node_id == node_id
                    &&& e.value@ == flatten(final(is)@.text)
                    &&& e.input_type@ == input_type_of(kind)
                    &&& match ins {
                        Some(t) => e.data matches Some(d) && d@ == t,
                        None => e.data is None,
                    }
                }
            },
            KeyOutcome::Blur => {
                &&& final(is)@ == (InputView { focused: false, ..op_key(old(is)@, *key, modifiers).0 })
                &&& r matches InputKeyEffect::Blur(f) && f.window_id == window_id && f.node_id == node_id
            },
            KeyOutcome::Handled => final(is)@ == op_key(old(is)@, *key, modifiers).0 && r is Redraw,
            KeyOutcome::Ignored => final(is)@ == op_key(old(is)@, *key, modifiers).0 && r is Nothing,
        },
        final(is).blink_resets == (if key_restarts_blink(old(is)@, *key, modifiers) {
            restarted(old(is).blink_resets)
        } else {
            old(is).blink_resets
        }),
{
    let result = is.handle_key(key, modifiers);
    match result {
        KeyResult::Edit(edit) => {
            let value = is.text_content();
            InputKeyEffect::Edit(input_event_for_edit(window_id, node_id, value, edit))
        },
        KeyResult::Blur => {
            is.focused = false;
            InputKeyEffect::Blur(FocusEventData { window_id, node_id })
        },
        KeyResult::Handled => InputKeyEffect::Redraw,
        KeyResult::Ignored => InputKeyEffect::Nothing,
    }
}

// ── Checkboxes ──────────────────────────────────────────────────────────────

/// Whether a key toggles a focused checkbox: Space or Enter, pressed.
pub open spec fn toggles_checkbox(pressed: bool, key: Key) -> bool {
    pressed && (key matches Key::Named(NamedKey::Space) || key matches Key::Named(NamedKey::Enter))
}

/// Toggles a focused checkbox on Space or Enter, and returns the input event
/// that reports it: the new value, `"true"` or `"false"`, as both value and
/// data, with type `toggle`. Other keys change nothing.
pub fn handle_key_for_checkbox(
    checked: &mut bool,
    window_id: u32,
    node_id: NodeId,
    pressed: bool,
    key: &Key,
) -> (r: Option<InputEventData>)
    ensures
        toggles_checkbox(pressed, *key) ==> {
            &&& *final(checked) == !*old(checked)
            &&& r matches Some(e) && {
                &&& e.window_id == window_id
                &&& e.node_id == node_id
                &&& e.value@ == (if *final(checked) { "true"@ } else { "false"@ })
                &&& e.input_type@ == "toggle"@
                &&& e.data matches Some(d) && d@ == e.value@
            }
        },
        !toggles_checkbox(pressed, *key) ==> *final(checked) == *old(checked) && r is None,
{
    if !pressed {
        return None;
    }
    let toggles = match key {
        Key::Named(NamedKey::Space) => true,
        Key::Named(NamedKey::Enter) => true,
        _ => false,
    };
    if !toggles {
        return None;
    }
    Some(toggle_checkbox(checked, window_id, node_id))
}

/// Toggles a checkbox and returns the input event that reports it: the new
/// value, `"true"` or `"false"`, as both value and data, with type `toggle`.
pub fn toggle_checkbox(checked: &mut bool, window_id: u32, node_id: NodeId) -> (e: InputEventData)
    ensures
        *final(checked) == !*old(checked),
        e.window_id == window_id,
        e.node_id == node_id,
        e.value@ == (if *final(checked) { "true"@ } else { "false"@ }),
        e.input_type@ == "toggle"@,
        e.data matches Some(d) && d@ == e.value@,
{
    *checked = !*checked;
    let value = checkbox_value_string(*checked);
    let data = checkbox_value_string(*checked);
    InputEventData { window_id, node_id, value, input_type: String::from_str("toggle"), data: Some(data) }
}

// ── Clipboard ───────────────────────────────────────────────────────────────

/// What a clipboard operation acts on.
#[derive(Clone, Copy, Debug, PartialEq, Eq, Structural)]
pub enum ClipboardTarget {
    /// The focused input.
    Input(NodeId),
    /// The root of a view selection.
    ViewSelection(NodeId),
}

/// A clipboard shortcut.
#[derive(Clone, Copy, Debug, PartialEq, Eq, Structural)]
pub enum ClipboardOp {
    Copy,
    Cut,
    Paste,
}

/// A clipboard operation ready to be reported and carried out.
pub enum ClipboardCommand {
    Copy { target: Option<NodeId>, selection_text: String },
    Cut { target: Option<NodeId>, selection_text: String, is_input: bool },
    Paste { target: Option<NodeId>, clipboard_text: Option<String>, is_input: bool },
}

/// The target of a clipboard operation: the focused input if there is one,
/// else a view selection that is not collapsed.
pub fn resolve_clipboard_target(focused_input: Option<NodeId>, view_selection: Option<DomSelection>) -> (r:
    Option<ClipboardTarget>)
    ensures
        r == (match focused_input {
            Some(id) => Some(ClipboardTarget::Input(id)),
            None => match view_selection {
                Some(s) => if s.range.anchor != s.range.active {
                    Some(ClipboardTarget::ViewSelection(s.root))
                } else {
                    None
                },
                None => None,
            },
        }),
{
    if let Some(id) = focused_input {
        return Some(ClipboardTarget::Input(id));
    }
    match view_selection {
        Some(s) => {
            if !s.is_collapsed() {
                Some(ClipboardTarget::ViewSelection(s.root))
            } else {
                None
            }
        },
        None => None,
    }
}

/// The clipboard operation a key press asks for: Control with C, X or V
/// (either case).
pub open spec fn clipboard_op_of(pressed: bool, key: Key, modifiers: u32) -> Option<ClipboardOp> {
    if !pressed || !ctrl_held(modifiers) {
        None
    } else {
        match key {
            Key::Character(c) => if c@ == seq!['c'] || c@ == seq!['C'] {
                Some(ClipboardOp::Copy)
            } else if c@ == seq!['x'] || c@ == seq!['X'] {
                Some(ClipboardOp::Cut)
            } else if c@ == seq!['v'] || c@ == seq!['V'] {
                Some(ClipboardOp::Paste)
            } else {
                None
            },
            _ => None,
        }
    }
}

/// Control (modifier bit 1) with a pressed C, X or V is a clipboard
/// shortcut whatever the letter's case: C copies, X cuts, V pastes; without
/// Control, or on release, no key is one. In the key path such a shortcut,
/// unless JavaScript prevented it, is carried out before the key goes
/// anywhere else.
pub proof fn law_clipboard_shortcuts(ch: String, modifiers: u32, focus: FocusKind)
    ensures
        modifiers & 1 != 0 && (ch@ == seq!['c'] || ch@ == seq!['C']) ==> clipboard_op_of(
            true,
            Key::Character(ch),
            modifiers,
        ) == Some(ClipboardOp::Copy),
        modifiers & 1 != 0 && (ch@ == seq!['x'] || ch@ == seq!['X']) ==> clipboard_op_of(
            true,
            Key::Character(ch),
            modifiers,
        ) == Some(ClipboardOp::Cut),
        modifiers & 1 != 0 && (ch@ == seq!['v'] || ch@ == seq!['V']) ==> clipboard_op_of(
            true,
            Key::Character(ch),
            modifiers,
        ) == Some(ClipboardOp::Paste),
        modifiers & 1 == 0 ==> clipboard_op_of(true, Key::Character(ch), modifiers) is None,
        clipboard_op_of(false, Key::Character(ch), modifiers) is None,
        clipboard_op_of(true, Key::Character(ch), modifiers) matches Some(op) ==> key_action(
            focus,
            true,
            Key::Character(ch),
            modifiers,
            false,
        ) == KeyAction::Clipboard(op, key_route(focus, true)),
{
    let s = ch@;
    if s.len() == 1 {
        assert(seq!['c'][0] == 'c' && seq!['C'][0] == 'C' && seq!['x'][0] == 'x');
        assert(seq!['X'][0] == 'X' && seq!['v'][0] == 'v' && seq!['V'][0] == 'V');
    }
}

fn is_one_of(s: &String, lower: char, upper: char) -> (b: bool)
    ensures
        b == (s@ == seq![lower] || s@ == seq![upper]),
{
    let t = s.as_str();
    if t.unicode_len() != 1 {
        proof {
            assert(s@ != seq![lower]);
            assert(s@ != seq![upper]);
        }
        return false;
    }
    let c = t.get_char(0);
    proof {
        if c == lower {
            assert(s@ =~= seq![lower]);
        } else if c == upper {
            assert(s@ =~= seq![upper]);
        } else {
            assert(s@ != seq![lower]);
            assert(s@ != seq![upper]);
        }
    }
    c == lower || c == upper
}

/// The clipboard operation of a key press (see `clipboard_op_of`).
pub fn clipboard_op_for_key(pressed: bool, key: &Key, modifiers: u32) -> (r: Option<ClipboardOp>)
    ensures
        r == clipboard_op_of(pressed, *key, modifiers),
{
    if !pressed {
        return None;
    }
    let ctrl = modifiers & 1 != 0;
    if !ctrl {
        return None;
    }
    match key {
        Key::Character(c) => {
            if is_one_of(c, 'c', 'C') {
                Some(ClipboardOp::Copy)
            } else if is_one_of(c, 'x', 'X') {
                Some(ClipboardOp::Cut)
            } else if is_one_of(c, 'v', 'V') {
                Some(ClipboardOp::Paste)
            } else {
                None
            }
        },
        _ => None,
    }
}

/// The identifier of a target.
pub open spec fn target_node(t: ClipboardTarget) -> NodeId {
    match t {
        ClipboardTarget::Input(id) => id,
        ClipboardTarget::ViewSelection(id) => id,
    }
}

/// Builds the command of a clipboard shortcut. Nothing is done without a
/// target, on a secure input for copy and cut, or with no selected text for
/// copy and cut. `selection_text` is the target's selected text and
/// `clipboard_text` what the clipboard holds.
pub fn build_clipboard_command(
    op: ClipboardOp,
    target: Option<ClipboardTarget>,
    input_secure: bool,
    selection_text: String,
    clipboard_text: Option<String>,
) -> (r: Option<ClipboardCommand>)
    ensures
        match target {
            None => r is None,
            Some(t) => {
                let is_input = t is Input;
                match op {
                    ClipboardOp::Copy => if (is_input && input_secure) || selection_text@.len() == 0 {
                        r is None
                    } else {
                        r matches Some(ClipboardCommand::Copy { target: tg, selection_text: s })
                            && tg == Some(target_node(t)) && s == selection_text
                    },
                    ClipboardOp::Cut => if (is_input && input_secure) || selection_text@.len() == 0 {
                        r is None
                    } else {
                        r matches Some(ClipboardCommand::Cut { target: tg, selection_text: s, is_input: i })
                            && tg == Some(target_node(t)) && s == selection_text && i == is_input
                    },
                    ClipboardOp::Paste => r matches Some(ClipboardCommand::Paste { target: tg, clipboard_text: c, is_input: i })
                        && tg == Some(target_node(t)) && c == clipboard_text && i == is_input,
                }
            },
        },
{
    let t = match target {
        Some(t) => t,
        None => {
            return None;
        },
    };
    let (node, is_input) = match t {
        ClipboardTarget::Input(id) => (id, true),
        ClipboardTarget::ViewSelection(id) => (id, false),
    };
    match op {
        ClipboardOp::Copy => {
            if (is_input && input_secure) || selection_text.as_str().unicode_len() == 0 {
                return None;
            }
            Some(ClipboardCommand::Copy { target: Some(node), selection_text })
        },
        ClipboardOp::Cut => {
            if (is_input && input_secure) || selection_text.as_str().unicode_len() == 0 {
                return None;
            }
            Some(ClipboardCommand::Cut { target: Some(node), selection_text, is_input })
        },
        ClipboardOp::Paste => Some(ClipboardCommand::Paste { target: Some(node), clipboard_text, is_input }),
    }
}

/// Carries out a clipboard command on the input it targets; reading and
/// writing the system clipboard is the window's.
/// - Copy changes nothing.
/// - Cut of an input with a selection deletes it as a deletion does
///   (`op_delete`); when that deleted something, the input's new value is
///   reported with type `deleteByCut`.
/// - Paste into an input types the clipboard's text as typing does
///   (`op_insert`); when that changed the value, the new value is reported
///   with type `insertFromPaste` and the pasted text as data.
/// A command that targets no input changes nothing.
pub fn apply_clipboard_to_input(is: &mut InputState, cmd: &ClipboardCommand, window_id: u32) -> (r: Option<
    InputEventData,
>)
    ensures
        match *cmd {
            ClipboardCommand::Copy { .. } => *final(is) == *old(is) && r is None,
            ClipboardCommand::Cut { target, is_input, .. } => match target {
                Some(id) => if is_input && old(is)@.range.anchor != old(is)@.range.active
                    && !old(is)@.disabled {
                    &&& final(is)@ == op_delete(old(is)@, EditKind::DeleteBackward).0
                    &&& final(is).blink_resets == restarted(old(is).blink_resets)
                    &&& r matches Some(e) && {
                        &&& e.window_id == window_id
                        &&& e.node_id == id
                        &&& e.value@ == flatten(final(is)@.text)
                        &&& e.input_type@ == "deleteByCut"@
                        &&& e.data is None
                    }
                } else {
                    *final(is) == *old(is) && r is None
                },
                None => *final(is) == *old(is) && r is None,
            },
            ClipboardCommand::Paste { target, clipboard_text, is_input } => match (target, clipboard_text) {
                (Some(id), Some(t)) => if is_input {
                    &&& final(is)@ == op_insert(old(is)@, t@).0
                    &&& final(is).blink_resets == (if op_insert(old(is)@, t@).1 is Some {
                        restarted(old(is).blink_resets)
                    } else {
                        old(is).blink_resets
                    })
                    &&& match op_insert(old(is)@, t@).1 {
                        Some(_) => r matches Some(e) && {
                            &&& e.window_id == window_id
                            &&& e.node_id == id
                            &&& e.value@ == flatten(final(is)@.text)
                            &&& e.input_type@ == "insertFromPaste"@
                            &&& e.data matches Some(d) && d@ == t@
                        },
                        None => r is None,
                    }
                } else {
                    *final(is) == *old(is) && r is None
                },
                _ => *final(is) == *old(is) && r is None,
            },
        },
{
    match cmd {
        ClipboardCommand::Copy { .. } => None,
        ClipboardCommand::Cut { target, is_input, .. } => {
            let id = match target {
                Some(id) => *id,
                None => {
                    return None;
                },
            };
            let range = is.range();
            if !*is_input || range.is_collapsed() || is.disabled {
                return None;
            }
            match is.delete_backward() {
                Some(_) => {
                    let value = is.text_content();
                    Some(
                        InputEventData {
                            window_id,
                            node_id: id,
                            value,
                            input_type: String::from_str("deleteByCut"),
                            data: None,
                        },
                    )
                },
                None => None,
            }
        },
        ClipboardCommand::Paste { target, clipboard_text, is_input } => {
            let (id, text) = match (target, clipboard_text) {
                (Some(id), Some(t)) => (*id, t),
                _ => {
                    return None;
                },
            };
            if !*is_input {
                return None;
            }
            match is.insert_text(text.as_str()) {
                Some(_) => {
                    let value = is.text_content();
                    Some(
                        InputEventData {
                            window_id,
                            node_id: id,
                            value,
                            input_type: String::from_str("insertFromPaste"),
                            data: Some(text.clone()),
                        },
                    )
                },
                None => None,
            }
        },
    }
}

/// What a clipboard command reports: the selected text for copy and cut, the
/// clipboard's text for paste.
pub fn clipboard_event_data(cmd: &ClipboardCommand, window_id: u32) -> (e: ClipboardEventData)
    ensures
        e.window_id == window_id,
        match *cmd {
            ClipboardCommand::Copy { target, selection_text } => {
                &&& e.node_id == target
                &&& e.selection_text matches Some(s) && s@ == selection_text@
                &&& e.clipboard_text is None
            },
            ClipboardCommand::Cut { target, selection_text, .. } => {
                &&& e.node_id == target
                &&& e.selection_text matches Some(s) && s@ == selection_text@
                &&& e.clipboard_text is None
            },
            ClipboardCommand::Paste { target, clipboard_text, .. } => {
                &&& e.node_id == target
                &&& e.selection_text is None
                &&& match clipboard_text {
                    Some(c) => e.clipboard_text matches Some(d) && d@ == c@,
                    None => e.clipboard_text is None,
                }
            },
        },
{
    match cmd {
        ClipboardCommand::Copy { target, selection_text } => ClipboardEventData {
            window_id,
            node_id: *target,
            selection_text: Some(selection_text.clone()),
            clipboard_text: None,
        },
        ClipboardCommand::Cut { target, selection_text, .. } => ClipboardEventData {
            window_id,
            node_id: *target,
            selection_text: Some(selection_text.clone()),
            clipboard_text: None,
        },
        ClipboardCommand::Paste { target, clipboard_text, .. } => {
            let copied = match clipboard_text {
                Some(c) => Some(c.clone()),
                None => None,
            };
            ClipboardEventData { window_id, node_id: *target, selection_text: None, clipboard_text: copied }
        },
    }
}

} // verus!
