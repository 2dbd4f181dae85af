use vstd::prelude::*;

use crate::cursor::UzCursorIcon;
use crate::input::InputState;
use crate::selection::NodeId;
use crate::textkit::str_eq;

verus! {

/// The content of a text node.
#[derive(Clone, Debug)]
pub struct TextNode {
    pub content: String,
}

impl TextNode {
    pub fn new(content: String) -> (t: Self)
        ensures
            t.content == content,
    {
        Self { content }
    }
}

/// What the state of an input holds, as a toggled flag: whether a checkbox
/// is checked.
pub enum ElementData {
    /// A text input with its editing state.
    TextInput(Box<InputState>),
    /// A checkbox and whether it is checked.
    CheckboxInput(bool),
    /// A plain view.
    View,
}

impl Default for ElementData {
    fn default() -> (d: Self)
        ensures
            d is View,
    {
        ElementData::View
    }
}

impl ElementData {
    /// The cursor shown over the element unless its style says otherwise.
    pub fn default_cursor(&self) -> (c: Option<UzCursorIcon>)
        ensures
            c == (match *self {
                ElementData::TextInput(_) => Some(UzCursorIcon::Text),
                ElementData::CheckboxInput(_) => Some(UzCursorIcon::Pointer),
                ElementData::View => None,
            }),
    {
        match self {
            ElementData::TextInput(_) => Some(UzCursorIcon::Text),
            ElementData::CheckboxInput(_) => Some(UzCursorIcon::Pointer),
            ElementData::View => None,
        }
    }

    pub fn is_text_input(&self) -> (b: bool)
        ensures
            b == (*self is TextInput),
    {
        match self {
            ElementData::TextInput(_) => true,
            _ => false,
        }
    }

    pub fn is_checkbox_input(&self) -> (b: bool)
        ensures
            b == (*self is CheckboxInput),
    {
        match self {
            ElementData::CheckboxInput(_) => true,
            _ => false,
        }
    }

    pub fn as_text_input(&self) -> (r: Option<&InputState>)
        ensures
            match *self {
                ElementData::TextInput(s) => r matches Some(x) && *x == *s,
                _ => r is None,
            },
    {
        match self {
            ElementData::TextInput(state) => Some(&**state),
            _ => None,
        }
    }

    pub fn as_text_input_mut(&mut self) -> (r: Option<&mut InputState>)
        ensures
            match *old(self) {
                ElementData::TextInput(s) => {
                    &&& r is Some
                    &&& *r->0 == *s
                    &&& *final(self) == ElementData::TextInput(Box::new(*final(r->0)))
                },
                _ => r is None && *final(self) == *old(self),
            },
    {
        match self {
            ElementData::TextInput(state) => Some(&mut **state),
            _ => None,
        }
    }

    pub fn as_checkbox_input(&self) -> (r: Option<&bool>)
        ensures
            match *self {
                ElementData::CheckboxInput(c) => r == Some(&c),
                _ => r is None,
            },
    {
        match self {
            ElementData::CheckboxInput(checked) => Some(checked),
            _ => None,
        }
    }

    pub fn as_checkbox_input_mut(&mut self) -> (r: Option<&mut bool>)
        ensures
            match *old(self) {
                ElementData::CheckboxInput(c) => {
                    &&& r is Some
                    &&& *r->0 == c
                    &&& *final(self) == ElementData::CheckboxInput(*final(r->0))
                },
                _ => r is None && *final(self) == *old(self),
            },
    {
        match self {
            ElementData::CheckboxInput(checked) => Some(checked),
            _ => None,
        }
    }
}

/// An element of the document: its kind-specific data and whether it can
/// take focus.
pub struct ElementNode {
    pub is_focussable: bool,
    pub data: ElementData,
}

impl ElementNode {
    /// An element that does not take focus.
    pub fn new(data: ElementData) -> (e: Self)
        ensures
            !e.is_focussable,
            e.data == data,
    {
        Self { is_focussable: false, data }
    }

    pub fn new_text_input(state: InputState) -> (e: Self)
        ensures
            !e.is_focussable,
            e.data == ElementData::TextInput(Box::new(state)),
    {
        Self::new(ElementData::TextInput(Box::new(state)))
    }

    pub fn new_checkbox_input(checked: bool) -> (e: Self)
        ensures
            !e.is_focussable,
            e.data == ElementData::CheckboxInput(checked),
    {
        Self::new(ElementData::CheckboxInput(checked))
    }

    pub fn is_text_input(&self) -> (b: bool)
        ensures
            b == (self.data is TextInput),
    {
        self.data.is_text_input()
    }

    pub fn is_checkbox_input(&self) -> (b: bool)
        ensures
            b == (self.data is CheckboxInput),
    {
        self.data.is_checkbox_input()
    }

    pub fn is_focussable(&self) -> (b: bool)
        ensures
            b == self.is_focussable,
    {
        self.is_focussable
    }

    pub fn set_focussable(&mut self, focussable: bool)
        ensures
            final(self).is_focussable == focussable,
            final(self).data == old(self).data,
    {
        self.is_focussable = focussable;
    }
}

/// What a node of the document is.
pub enum NodeData {
    Root,
    Text(TextNode),
    Element(ElementNode),
}

impl From<TextNode> for NodeData {
    fn from(value: TextNode) -> (n: Self) {
        NodeData::Text(value)
    }
}

impl vstd::std_specs::convert::FromSpecImpl<TextNode> for NodeData {
    open spec fn obeys_from_spec() -> bool {
        true
    }

    open spec fn from_spec(v: TextNode) -> NodeData {
        NodeData::Text(v)
    }
}

impl From<ElementNode> for NodeData {
    fn from(value: ElementNode) -> (n: Self) {
        NodeData::Element(value)
    }
}

impl vstd::std_specs::convert::FromSpecImpl<ElementNode> for NodeData {
    open spec fn obeys_from_spec() -> bool {
        true
    }

    open spec fn from_spec(v: ElementNode) -> NodeData {
        NodeData::Element(v)
    }
}

impl NodeData {
    /// The cursor shown over the node unless its style says otherwise. Text
    /// nodes and the root take the cursor of their container.
    pub fn default_cursor(&self) -> (c: Option<UzCursorIcon>)
        ensures
            c == (match *self {
                NodeData::Element(e) => match e.data {
                    ElementData::TextInput(_) => Some(UzCursorIcon::Text),
                    ElementData::CheckboxInput(_) => Some(UzCursorIcon::Pointer),
                    ElementData::View => None,
                },
                _ => None,
            }),
    {
        match self {
            NodeData::Element(element) => element.data.default_cursor(),
            NodeData::Text(_) => None,
            NodeData::Root => None,
        }
    }

    pub fn create_root() -> (n: Self)
        ensures
            n is Root,
    {
        NodeData::Root
    }

    pub fn create_text(data: TextNode) -> (n: Self)
        ensures
            n == NodeData::Text(data),
    {
        NodeData::Text(data)
    }

    pub fn create_element(data: ElementNode) -> (n: Self)
        ensures
            n == NodeData::Element(data),
    {
        NodeData::Element(data)
    }

    pub fn as_text_node(&self) -> (r: Option<&TextNode>)
        ensures
            match *self {
                NodeData::Text(t) => r == Some(&t),
                _ => r is None,
            },
    {
        match self {
            NodeData::Text(text) => Some(text),
            _ => None,
        }
    }

    pub fn as_text_node_mut(&mut self) -> (r: Option<&mut TextNode>)
        ensures
            match *old(self) {
                NodeData::Text(t) => {
                    &&& r is Some
                    &&& *r->0 == t
                    &&& *final(self) == NodeData::Text(*final(r->0))
                },
                _ => r is None && *final(self) == *old(self),
            },
    {
        match self {
            NodeData::Text(text) => Some(text),
            _ => None,
        }
    }

    pub fn as_text_input(&self) -> (r: Option<&InputState>)
        ensures
            match *self {
                NodeData::Element(e) => match e.data {
                    ElementData::TextInput(s) => r matches Some(x) && *x == *s,
                    _ => r is None,
                },
                _ => r is None,
            },
    {
        match self {
            NodeData::Element(element) => element.data.as_text_input(),
            _ => None,
        }
    }

    pub fn as_text_input_mut(&mut self) -> (r: Option<&mut InputState>)
        ensures
            match *old(self) {
                NodeData::Element(e) => match e.data {
                    ElementData::TextInput(s) => {
                        &&& r is Some
                        &&& *r->0 == *s
                        &&& *final(self) == NodeData::Element(ElementNode {
                            is_focussable: e.is_focussable,
                            data: ElementData::TextInput(Box::new(*final(r->0))),
                        })
                    },
                    _ => r is None && *final(self) == *old(self),
                },
                _ => r is None && *final(self) == *old(self),
            },
    {
        match self {
            NodeData::Element(element) => element.data.as_text_input_mut(),
            _ => None,
        }
    }

    pub fn as_checkbox_input(&self) -> (r: Option<&bool>)
        ensures
            match *self {
                NodeData::Element(e) => match e.data {
                    ElementData::CheckboxInput(c) => r == Some(&c),
                    _ => r is None,
                },
                _ => r is None,
            },
    {
        match self {
            NodeData::Element(element) => element.data.as_checkbox_input(),
            _ => None,
        }
    }

    pub fn as_checkbox_input_mut(&mut self) -> (r: Option<&mut bool>)
        ensures
            match *old(self) {
                NodeData::Element(e) => match e.data {
                    ElementData::CheckboxInput(c) => {
                        &&& r is Some
                        &&& *r->0 == c
                        &&& *final(self) == NodeData::Element(ElementNode {
                            is_focussable: e.is_focussable,
                            data: ElementData::CheckboxInput(*final(r->0)),
                        })
                    },
                    _ => r is None && *final(self) == *old(self),
                },
                _ => r is None && *final(self) == *old(self),
            },
    {
        match self {
            NodeData::Element(element) => element.data.as_checkbox_input_mut(),
            _ => None,
        }
    }

    pub fn is_text_node(&self) -> (b: bool)
        ensures
            b == (*self is Text),
    {
        match self {
            NodeData::Text(_) => true,
            _ => false,
        }
    }

    pub fn is_text_input(&self) -> (b: bool)
        ensures
            b == (*self matches NodeData::Element(e) && e.data is TextInput),
    {
        match self {
            NodeData::Element(element) => element.data.is_text_input(),
            _ => false,
        }
    }

    pub fn is_checkbox_input(&self) -> (b: bool)
        ensures
            b == (*self matches NodeData::Element(e) && e.data is CheckboxInput),
    {
        match self {
            NodeData::Element(element) => element.data.is_checkbox_input(),
            _ => false,
        }
    }

    pub fn is_element(&self) -> (b: bool)
        ensures
            b == (*self is Element),
    {
        match self {
            NodeData::Element(_) => true,
            _ => false,
        }
    }

    pub fn is_root(&self) -> (b: bool)
        ensures
            b == (*self is Root),
    {
        match self {
            NodeData::Root => true,
            _ => false,
        }
    }

    pub fn as_element(&self) -> (r: Option<&ElementNode>)
        ensures
            match *self {
                NodeData::Element(e) => r == Some(&e),
                _ => r is None,
            },
    {
        match self {
            NodeData::Element(element) => Some(element),
            _ => None,
        }
    }

    pub fn as_element_mut(&mut self) -> (r: Option<&mut ElementNode>)
        ensures
            match *old(self) {
                NodeData::Element(e) => {
                    &&& r is Some
                    &&& *r->0 == e
                    &&& *final(self) == NodeData::Element(*final(r->0))
                },
                _ => r is None && *final(self) == *old(self),
            },
    {
        match self {
            NodeData::Element(element) => Some(element),
            _ => None,
        }
    }

    /// The element of an element node (the same as `as_element`).
    pub fn as_element_kind(&self) -> (r: Option<&ElementNode>)
        ensures
            match *self {
                NodeData::Element(e) => r == Some(&e),
                _ => r is None,
            },
    {
        match self {
            NodeData::Element(element) => Some(element),
            _ => None,
        }
    }

    /// The element of an element node (the same as `as_element_mut`).
    pub fn as_element_kind_mut(&mut self) -> (r: Option<&mut ElementNode>)
        ensures
            match *old(self) {
                NodeData::Element(e) => {
                    &&& r is Some
                    &&& *r->0 == e
                    &&& *final(self) == NodeData::Element(*final(r->0))
                },
                _ => r is None && *final(self) == *old(self),
            },
    {
        match self {
            NodeData::Element(element) => Some(element),
            _ => None,
        }
    }
}

/// Properties that pass from a parent to its children unless a child sets
/// them itself.
#[derive(Clone, Debug)]
pub struct InheritedProperties {
    pub text_selectable: bool,
}

impl Default for InheritedProperties {
    fn default() -> (p: Self)
        ensures
            !p.text_selectable,
    {
        InheritedProperties { text_selectable: false }
    }
}

/// How a checkbox is drawn.
pub struct CheckboxRenderInfo {
    pub checked: bool,
    pub focused: bool,
}

/// The value a checkbox reports: `"true"` or `"false"`.
pub fn checkbox_value_string(checked: bool) -> (s: String)
    ensures
        s@ == (if checked { "true"@ } else { "false"@ }),
{
    if checked {
        String::from_str("true")
    } else {
        String::from_str("false")
    }
}

/// The DOM node name of a node's kind.
pub open spec fn node_kind(data: NodeData) -> Seq<char> {
    match data {
        NodeData::Root => "#root"@,
        NodeData::Text(_) => "#text"@,
        NodeData::Element(_) => "#element"@,
    }
}

/// The DOM node name of a node: `#root`, `#text` or `#element`.
pub fn node_kind_name(data: &NodeData) -> (s: &'static str)
    ensures
        s@ == node_kind(*data),
{
    match data {
        NodeData::Root => "#root",
        NodeData::Text(_) => "#text",
        NodeData::Element(_) => "#element",
    }
}

/// The DOM `nodeType` that goes with a node name: 3 for text nodes, 1 for
/// the rest.
pub fn node_type_for_name(name: &str) -> (t: u32)
    ensures
        t == (if name@ == "#text"@ { 3u32 } else { 1u32 }),
{
    if str_eq(name, "#text") {
        3
    } else {
        1
    }
}

} // verus!
