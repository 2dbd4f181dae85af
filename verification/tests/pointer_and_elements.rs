use uzumaki::cursor::UzCursorIcon;
use uzumaki::element::{
    checkbox_value_string, node_kind_name, node_type_for_name, ElementData, ElementNode, NodeData, TextNode,
};
use uzumaki::element_props::{
    clear_element_prop, get_element_prop, set_element_bool, set_element_str, PropValue, StyleEffect,
};
use uzumaki::input::InputState;
use uzumaki::interactivity::{hover_order, MouseButton};
use uzumaki::pointer::{
    flat_index_in_entry, focus_transition, modifier_bits, mouse_button_step, update_button_mask,
    view_click_selection, ClickTracker, PointerAction, PointerState, PressTarget,
};
use uzumaki::prop_keys::ElementProp;
use uzumaki::selection::DomSelection;
use uzumaki::text_runs::{TextRunEntry, TextSelectRun};

#[test]
fn clicks_count_up_to_four() {
    let mut t = ClickTracker::new();
    assert_eq!(t.register_click(3, None), 1);
    assert_eq!(t.register_click(3, Some(100)), 2);
    assert_eq!(t.register_click(3, Some(399)), 3);
    assert_eq!(t.register_click(3, Some(10)), 4);
    assert_eq!(t.register_click(3, Some(10)), 4);
    assert_eq!(t.register_click(3, Some(400)), 1);
    assert_eq!(t.register_click(4, Some(10)), 1);
}

#[test]
fn focus_moves_between_nodes() {
    assert_eq!(focus_transition(Some(1), 2), (Some(1), Some(2)));
    assert_eq!(focus_transition(None, 2), (None, Some(2)));
    assert_eq!(focus_transition(Some(2), 2), (None, None));
}

#[test]
fn modifiers_and_buttons() {
    assert_eq!(modifier_bits(true, false, true, false), 5);
    assert_eq!(modifier_bits(false, true, false, true), 10);
    let m = update_button_mask(0, Some(MouseButton::Left), true);
    assert_eq!(m, 1);
    let m = update_button_mask(m, Some(MouseButton::Middle), true);
    assert_eq!(m, 5);
    let m = update_button_mask(m, Some(MouseButton::Left), false);
    assert_eq!(m, 4);
    assert_eq!(update_button_mask(m, None, true), 4);
    assert_eq!(MouseButton::Right.number(), 2);
    assert_eq!(MouseButton::Middle.number(), 1);
}

#[test]
fn hovered_nodes_back_to_front() {
    let hits = vec![(1, true), (2, false), (3, true), (1, true), (4, false)];
    let (hovered, top) = hover_order(&hits);
    assert_eq!(hovered, vec![3, 1]);
    assert_eq!(top, Some(1));
    let (hovered, top) = hover_order(&[(1, false)]);
    assert!(hovered.is_empty());
    assert_eq!(top, None);
}

fn run() -> TextSelectRun {
    let mut r = TextSelectRun::new(1);
    r.push_text(2, "hello ");
    r.push_text(3, "big world");
    r
}

#[test]
fn clicks_select_caret_word_node_and_run() {
    let runs = vec![run()];
    assert_eq!(view_click_selection(&runs, 3, 1, 8, 1), Some(DomSelection::new(1, 8, 8)));
    assert_eq!(view_click_selection(&runs, 3, 1, 8, 2), Some(DomSelection::new(1, 6, 9)));
    assert_eq!(view_click_selection(&runs, 3, 1, 8, 3), Some(DomSelection::new(1, 6, 15)));
    assert_eq!(view_click_selection(&runs, 3, 1, 8, 4), Some(DomSelection::new(1, 0, 15)));
    assert_eq!(view_click_selection(&runs, 9, 1, 8, 3), None);
    assert_eq!(view_click_selection(&runs, 3, 7, 8, 4), None);
}

#[test]
fn click_point_is_capped_to_its_node() {
    let e = TextRunEntry { node_id: 3, flat_start: 6, grapheme_count: 9 };
    assert_eq!(flat_index_in_entry(&e, 4), 10);
    assert_eq!(flat_index_in_entry(&e, 40), 15);
}

#[test]
fn node_kinds_and_cursors() {
    let root = NodeData::create_root();
    assert!(root.is_root() && !root.is_element());
    assert_eq!(root.default_cursor(), None);
    let text = NodeData::create_text(TextNode::new("hi".to_string()));
    assert!(text.is_text_node());
    assert_eq!(text.as_text_node().unwrap().content, "hi");
    assert_eq!(text.default_cursor(), None);
    let input = NodeData::create_element(ElementNode::new_text_input(InputState::default()));
    assert!(input.is_text_input() && input.is_element() && !input.is_checkbox_input());
    assert_eq!(input.default_cursor(), Some(UzCursorIcon::Text));
    let mut checkbox = NodeData::from(ElementNode::new_checkbox_input(true));
    assert_eq!(checkbox.default_cursor(), Some(UzCursorIcon::Pointer));
    assert_eq!(checkbox.as_checkbox_input(), Some(&true));
    *checkbox.as_checkbox_input_mut().unwrap() = false;
    assert_eq!(checkbox.as_checkbox_input(), Some(&false));
    let view = ElementNode::new(ElementData::default());
    assert!(!view.is_focussable() && !view.is_text_input() && !view.is_checkbox_input());
    assert_eq!(view.data.default_cursor(), None);
    let mut el = ElementNode::new_checkbox_input(false);
    el.set_focussable(true);
    assert!(el.is_focussable());
    assert_eq!(checkbox_value_string(true), "true");
    assert_eq!(checkbox_value_string(false), "false");
}

#[test]
fn element_properties() {
    let mut node = NodeData::create_element(ElementNode::new_text_input(InputState::default()));
    assert_eq!(set_element_str(&mut node, ElementProp::Value, "hello", None, false), StyleEffect::Applied);
    assert_eq!(set_element_str(&mut node, ElementProp::Placeholder, "type", None, false), StyleEffect::Applied);
    assert_eq!(set_element_str(&mut node, ElementProp::MaxLength, "3", Some(3), false), StyleEffect::Applied);
    assert_eq!(set_element_bool(&mut node, ElementProp::Secure, true), StyleEffect::Applied);
    assert_eq!(set_element_bool(&mut node, ElementProp::Checked, true), StyleEffect::Ignored);
    match get_element_prop(&node, ElementProp::Value) {
        PropValue::Text(t) => assert_eq!(t, "hello"),
        _ => panic!("expected text"),
    }
    match get_element_prop(&node, ElementProp::Placeholder) {
        PropValue::Text(t) => assert_eq!(t, "type"),
        _ => panic!("expected text"),
    }
    assert!(matches!(get_element_prop(&node, ElementProp::MaxLength), PropValue::Count(3)));
    assert!(matches!(get_element_prop(&node, ElementProp::Secure), PropValue::Flag(true)));
    assert!(matches!(get_element_prop(&node, ElementProp::Checked), PropValue::Null));
    assert_eq!(clear_element_prop(&mut node, ElementProp::Value), StyleEffect::Applied);
    assert_eq!(clear_element_prop(&mut node, ElementProp::MaxLength), StyleEffect::Applied);
    match get_element_prop(&node, ElementProp::Value) {
        PropValue::Text(t) => assert_eq!(t, ""),
        _ => panic!("expected text"),
    }
    assert!(matches!(get_element_prop(&node, ElementProp::MaxLength), PropValue::Null));

    let mut cb = NodeData::create_element(ElementNode::new_checkbox_input(false));
    assert_eq!(set_element_str(&mut cb, ElementProp::Checked, "true", None, true), StyleEffect::Applied);
    assert!(matches!(get_element_prop(&cb, ElementProp::Checked), PropValue::Flag(true)));
    assert_eq!(set_element_bool(&mut cb, ElementProp::Disabled, true), StyleEffect::Ignored);
    assert_eq!(clear_element_prop(&mut cb, ElementProp::Checked), StyleEffect::Applied);
    assert!(matches!(get_element_prop(&cb, ElementProp::Checked), PropValue::Flag(false)));
    let mut text = NodeData::create_text(TextNode::new("t".to_string()));
    assert_eq!(clear_element_prop(&mut text, ElementProp::Value), StyleEffect::Ignored);
}

#[test]
fn node_names_and_types() {
    let root = NodeData::create_root();
    let text = NodeData::create_text(TextNode::new("hi".to_string()));
    let view = NodeData::create_element(ElementNode::new(ElementData::default()));
    assert_eq!(node_kind_name(&root), "#root");
    assert_eq!(node_kind_name(&text), "#text");
    assert_eq!(node_kind_name(&view), "#element");
    assert_eq!(node_type_for_name(node_kind_name(&text)), 3);
    assert_eq!(node_type_for_name(node_kind_name(&view)), 1);
    assert_eq!(node_type_for_name("#root"), 1);
}

fn pointer_state() -> PointerState {
    PointerState {
        focused: None,
        active: None,
        hovered: vec![],
        clicks: ClickTracker::new(),
        last_click_at: None,
        view_selection: None,
        dragging_input: None,
        dragging_view_selection: None,
    }
}

#[test]
fn clicking_a_checkbox_focuses_toggles_and_clicks() {
    let mut st = pointer_state();
    st.focused = Some(9);
    let runs: Vec<TextSelectRun> = vec![];
    let target = PressTarget::Checkbox { checked: false };
    let (redraw, acts) = mouse_button_step(&mut st, &runs, true, MouseButton::Left, Some(5), target, 1000);
    assert!(redraw);
    assert_eq!(acts, vec![PointerAction::Down(5), PointerAction::Blur(9), PointerAction::Focus(5)]);
    assert_eq!((st.focused, st.active), (Some(5), Some(5)));
    st.hovered = vec![0, 5];
    let (_, acts) = mouse_button_step(&mut st, &runs, false, MouseButton::Left, Some(5), target, 1050);
    assert_eq!(acts, vec![PointerAction::Up(5), PointerAction::Toggle(5, true), PointerAction::Click(5)]);
    assert_eq!(st.active, None);
}

#[test]
fn releasing_elsewhere_does_not_click() {
    let mut st = pointer_state();
    let runs: Vec<TextSelectRun> = vec![];
    let other = PressTarget::Other { local_idx: None };
    mouse_button_step(&mut st, &runs, true, MouseButton::Left, Some(4), other, 0);
    st.hovered = vec![0, 6];
    let (_, acts) = mouse_button_step(&mut st, &runs, false, MouseButton::Left, Some(6), other, 10);
    assert_eq!(acts, vec![PointerAction::Up(6)]);
}

#[test]
fn double_click_in_an_input_selects_by_count() {
    let mut st = pointer_state();
    let runs: Vec<TextSelectRun> = vec![];
    let input = PressTarget::TextInput { placed: true };
    let (_, acts) = mouse_button_step(&mut st, &runs, true, MouseButton::Left, Some(7), input, 5000);
    assert_eq!(acts, vec![PointerAction::Down(7), PointerAction::Focus(7), PointerAction::PlaceCaret(7, 1)]);
    mouse_button_step(&mut st, &runs, false, MouseButton::Left, Some(7), input, 5060);
    let (_, acts) = mouse_button_step(&mut st, &runs, true, MouseButton::Left, Some(7), input, 5120);
    assert_eq!(acts, vec![PointerAction::Down(7), PointerAction::PlaceCaret(7, 2)]);
    assert_eq!(st.dragging_input, Some(7));
    // A click after the multi-click time starts counting again.
    let (_, acts) = mouse_button_step(&mut st, &runs, true, MouseButton::Left, Some(7), input, 6000);
    assert_eq!(acts, vec![PointerAction::Down(7), PointerAction::PlaceCaret(7, 1)]);
}

#[test]
fn clicking_selectable_text_places_and_extends_a_view_selection() {
    let mut st = pointer_state();
    st.focused = Some(8);
    let runs = vec![run()];
    let at = |i| PressTarget::Other { local_idx: Some(i) };
    let (_, acts) = mouse_button_step(&mut st, &runs, true, MouseButton::Left, Some(3), at(2), 100);
    assert_eq!(acts, vec![PointerAction::Down(3), PointerAction::Blur(8)]);
    assert_eq!(st.focused, None);
    assert_eq!(st.view_selection, Some(DomSelection::new(1, 8, 8)));
    assert_eq!(st.dragging_view_selection, Some(1));
    mouse_button_step(&mut st, &runs, false, MouseButton::Left, Some(3), at(2), 150);
    mouse_button_step(&mut st, &runs, true, MouseButton::Left, Some(3), at(2), 200);
    assert_eq!(st.view_selection, Some(DomSelection::new(1, 6, 9)));
    // Off selectable text the view selection is cleared.
    mouse_button_step(&mut st, &runs, true, MouseButton::Left, Some(40), at(0), 900);
    assert_eq!(st.view_selection, None);
}
