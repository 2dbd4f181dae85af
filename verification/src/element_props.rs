use vstd::prelude::*;

use crate::element::{ElementData, ElementNode, NodeData};
use crate::input::{cursor_at, InputView};
use crate::prop_keys::ElementProp;
use crate::text_model::clamp_pos;
use crate::textkit::{flatten, grapheme_clusters};
use crate::selection::SelectionRange;

verus! {

/// What setting or clearing a property did.
#[derive(Clone, Copy, Debug, PartialEq, Eq, Structural)]
pub enum StyleEffect {
    /// The node has no such property; nothing changed.
    Ignored,
    /// The property changed.
    Applied,
    /// The property changed and the layout must be recomputed.
    AppliedNeedsSync,
}

/// The state of a node's text input, if it is one.
pub open spec fn input_view(n: NodeData) -> Option<InputView> {
    match n {
        NodeData::Element(e) => match e.data {
            ElementData::TextInput(s) => Some(s@),
            _ => None,
        },
        _ => None,
    }
}

/// The state of a node's checkbox, if it is one.
pub open spec fn checkbox_state(n: NodeData) -> Option<bool> {
    match n {
        NodeData::Element(e) => match e.data {
            ElementData::CheckboxInput(c) => Some(c),
            _ => None,
        },
        _ => None,
    }
}

/// Whether a node takes focus (only elements do).
pub open spec fn focussable(n: NodeData) -> bool {
    match n {
        NodeData::Element(e) => e.is_focussable,
        _ => false,
    }
}

/// A change of an input's state that leaves the node an input that takes
/// focus as it did.
pub open spec fn input_changed_to(before: NodeData, after: NodeData, v: InputView) -> bool {
    &&& input_view(after) == Some(v)
    &&& focussable(after) == focussable(before)
}

/// Sets a flag of an input (disabled, multiline, secure) or whether a
/// checkbox is checked.
pub fn set_element_bool(node: &mut NodeData, prop: ElementProp, value: bool) -> (r: StyleEffect)
    ensures
        match (prop, input_view(*old(node)), checkbox_state(*old(node))) {
            (ElementProp::Disabled, Some(v), _) => r is Applied && input_changed_to(
                *old(node),
                *final(node),
                InputView { disabled: value, ..v },
            ),
            (ElementProp::Multiline, Some(v), _) => r is Applied && input_changed_to(
                *old(node),
                *final(node),
                InputView { multiline: value, ..v },
            ),
            (ElementProp::Secure, Some(v), _) => r is Applied && input_changed_to(
                *old(node),
                *final(node),
                InputView { secure: value, ..v },
            ),
            (ElementProp::Checked, _, Some(c)) => {
                &&& r is Applied
                &&& checkbox_state(*final(node)) == Some(value)
                &&& focussable(*final(node)) == focussable(*old(node))
            },
            _ => r is Ignored && *final(node) == *old(node),
        },
{
    match prop {
        ElementProp::Disabled => {
            if let Some(input) = node.as_text_input_mut() {
                input.disabled = value;
                return StyleEffect::Applied;
            }
        },
        ElementProp::Multiline => {
            if let Some(input) = node.as_text_input_mut() {
                input.multiline = value;
                return StyleEffect::Applied;
            }
        },
        ElementProp::Secure => {
            if let Some(input) = node.as_text_input_mut() {
                input.secure = value;
                return StyleEffect::Applied;
            }
        },
        ElementProp::Checked => {
            if let Some(checked) = node.as_checkbox_input_mut() {
                *checked = value;
                return StyleEffect::Applied;
            }
        },
        _ => {},
    }
    StyleEffect::Ignored
}

/// Sets the limit on an input's length.
pub fn set_input_max_length(node: &mut NodeData, max_length: Option<usize>) -> (r: StyleEffect)
    ensures
        match input_view(*old(node)) {
            Some(v) => r is Applied && input_changed_to(
                *old(node),
                *final(node),
                InputView { limit: max_length, ..v },
            ),
            None => r is Ignored && *final(node) == *old(node),
        },
{
    if let Some(input) = node.as_text_input_mut() {
        input.model.set_max_length(max_length);
        return StyleEffect::Applied;
    }
    StyleEffect::Ignored
}

/// An input's state after its value is replaced: the text's clusters, with
/// both ends of the selection clamped to them.
pub open spec fn with_value(v: InputView, value: Seq<char>) -> InputView {
    let gs = grapheme_clusters(value);
    InputView {
        text: gs,
        range: SelectionRange {
            anchor: clamp_pos(gs, v.range.anchor as int) as usize,
            active: clamp_pos(gs, v.range.active as int) as usize,
        },
        ..v
    }
}

/// Sets a property from a string. The value and the placeholder take the
/// string itself; the length limit and the flags take what the caller read
/// from it (`max_length` and `flag`).
pub fn set_element_str(
    node: &mut NodeData,
    prop: ElementProp,
    value: &str,
    max_length: Option<usize>,
    flag: bool,
) -> (r: StyleEffect)
    ensures
        match prop {
            ElementProp::Value => match input_view(*old(node)) {
                Some(v) => r is Applied && input_changed_to(*old(node), *final(node), with_value(v, value@)),
                None => r is Ignored && *final(node) == *old(node),
            },
            ElementProp::Placeholder => match input_view(*old(node)) {
                Some(v) => r is Applied && input_changed_to(
                    *old(node),
                    *final(node),
                    InputView { placeholder: value@, ..v },
                ),
                None => r is Ignored && *final(node) == *old(node),
            },
            ElementProp::MaxLength => match input_view(*old(node)) {
                Some(v) => r is Applied && input_changed_to(
                    *old(node),
                    *final(node),
                    InputView { limit: max_length, ..v },
                ),
                None => r is Ignored && *final(node) == *old(node),
            },
            _ => match (prop, input_view(*old(node)), checkbox_state(*old(node))) {
                (ElementProp::Disabled, Some(v), _) => r is Applied && input_changed_to(
                    *old(node),
                    *final(node),
                    InputView { disabled: flag, ..v },
                ),
                (ElementProp::Multiline, Some(v), _) => r is Applied && input_changed_to(
                    *old(node),
                    *final(node),
                    InputView { multiline: flag, ..v },
                ),
                (ElementProp::Secure, Some(v), _) => r is Applied && input_changed_to(
                    *old(node),
                    *final(node),
                    InputView { secure: flag, ..v },
                ),
                (ElementProp::Checked, _, Some(c)) => {
                    &&& r is Applied
                    &&& checkbox_state(*final(node)) == Some(flag)
                    &&& focussable(*final(node)) == focussable(*old(node))
                },
                _ => r is Ignored && *final(node) == *old(node),
            },
        },
{
    match prop {
        ElementProp::Value => {
            if let Some(input) = node.as_text_input_mut() {
                input.set_value(String::from_str(value));
                return StyleEffect::Applied;
            }
            StyleEffect::Ignored
        },
        ElementProp::Placeholder => {
            if let Some(input) = node.as_text_input_mut() {
                input.placeholder = String::from_str(value);
                return StyleEffect::Applied;
            }
            StyleEffect::Ignored
        },
        ElementProp::MaxLength => set_input_max_length(node, max_length),
        _ => set_element_bool(node, prop, flag),
    }
}

/// Clears a property: an empty value and placeholder, no limit, flags off,
/// a checkbox unchecked.
pub fn clear_element_prop(node: &mut NodeData, prop: ElementProp) -> (r: StyleEffect)
    ensures
        match prop {
            ElementProp::Value => match input_view(*old(node)) {
                Some(v) => r is Applied && input_changed_to(
                    *old(node),
                    *final(node),
                    with_value(v, Seq::<char>::empty()),
                ),
                None => r is Ignored && *final(node) == *old(node),
            },
            ElementProp::Placeholder => match input_view(*old(node)) {
                Some(v) => r is Applied && input_changed_to(
                    *old(node),
                    *final(node),
                    InputView { placeholder: Seq::<char>::empty(), ..v },
                ),
                None => r is Ignored && *final(node) == *old(node),
            },
            ElementProp::MaxLength => match input_view(*old(node)) {
                Some(v) => r is Applied && input_changed_to(
                    *old(node),
                    *final(node),
                    InputView { limit: None, ..v },
                ),
                None => r is Ignored && *final(node) == *old(node),
            },
            _ => match (prop, input_view(*old(node)), checkbox_state(*old(node))) {
                (ElementProp::Disabled, Some(v), _) => r is Applied && input_changed_to(
                    *old(node),
                    *final(node),
                    InputView { disabled: false, ..v },
                ),
                (ElementProp::Multiline, Some(v), _) => r is Applied && input_changed_to(
                    *old(node),
                    *final(node),
                    InputView { multiline: false, ..v },
                ),
                (ElementProp::Secure, Some(v), _) => r is Applied && input_changed_to(
                    *old(node),
                    *final(node),
                    InputView { secure: false, ..v },
                ),
                (ElementProp::Checked, _, Some(c)) => {
                    &&& r is Applied
                    &&& checkbox_state(*final(node)) == Some(false)
                    &&& focussable(*final(node)) == focussable(*old(node))
                },
                _ => r is Ignored && *final(node) == *old(node),
            },
        },
{
    match prop {
        ElementProp::Value => {
            if let Some(input) = node.as_text_input_mut() {
                input.set_value(String::new());
                return StyleEffect::Applied;
            }
            StyleEffect::Ignored
        },
        ElementProp::Placeholder => {
            if let Some(input) = node.as_text_input_mut() {
                input.placeholder = String::new();
                return StyleEffect::Applied;
            }
            StyleEffect::Ignored
        },
        ElementProp::MaxLength => set_input_max_length(node, None),
        _ => set_element_bool(node, prop, false),
    }
}

/// A property's value as it is reported.
pub enum PropValue {
    Null,
    Text(String),
    Flag(bool),
    Count(usize),
}

/// Reads a property: the text, the placeholder, the flags and the limit of
/// an input, whether a checkbox is checked; `Null` when the node has no such
/// property or no limit is set.
pub fn get_element_prop(node: &NodeData, prop: ElementProp) -> (r: PropValue)
    ensures
        match (prop, input_view(*node), checkbox_state(*node)) {
            (ElementProp::Value, Some(v), _) => r matches PropValue::Text(t) && t@ == flatten(v.text),
            (ElementProp::Placeholder, Some(v), _) => r matches PropValue::Text(t) && t@ == v.placeholder,
            (ElementProp::Disabled, Some(v), _) => r == PropValue::Flag(v.disabled),
            (ElementProp::MaxLength, Some(v), _) => match v.limit {
                Some(m) => r == PropValue::Count(m),
                None => r is Null,
            },
            (ElementProp::Multiline, Some(v), _) => r == PropValue::Flag(v.multiline),
            (ElementProp::Secure, Some(v), _) => r == PropValue::Flag(v.secure),
            (ElementProp::Checked, _, Some(c)) => r == PropValue::Flag(c),
            _ => r is Null,
        },
{
    match prop {
        ElementProp::Checked => match node.as_checkbox_input() {
            Some(c) => PropValue::Flag(*c),
            None => PropValue::Null,
        },
        _ => match node.as_text_input() {
            None => PropValue::Null,
            Some(input) => match prop {
                ElementProp::Value => PropValue::Text(input.text_content()),
                ElementProp::Placeholder => PropValue::Text(input.placeholder.clone()),
                ElementProp::Disabled => PropValue::Flag(input.disabled),
                ElementProp::MaxLength => match input.model.max_length() {
                    Some(m) => PropValue::Count(m),
                    None => PropValue::Null,
                },
                ElementProp::Multiline => PropValue::Flag(input.multiline),
                ElementProp::Secure => PropValue::Flag(input.secure),
                ElementProp::Checked => PropValue::Null,
            },
        },
    }
}

} // verus!
