use vstd::prelude::*;

use crate::textkit::{str_eq, trim_end, trim_start, trim_str};

verus! {

/// An RGBA colour, 8 bits per channel.
#[derive(Clone, Copy, Debug, PartialEq, Eq, Structural)]
pub struct Color {
    pub r: u8,
    pub g: u8,
    pub b: u8,
    pub a: u8,
}

impl Color {
    /// Fully transparent black; also the default colour.
    pub fn transparent() -> (c: Self)
        ensures
            c == (Color { r: 0, g: 0, b: 0, a: 0 }),
    {
        Self { r: 0, g: 0, b: 0, a: 0 }
    }

    pub fn white() -> (c: Self)
        ensures
            c == (Color { r: 255, g: 255, b: 255, a: 255 }),
    {
        Self { r: 255, g: 255, b: 255, a: 255 }
    }

    pub fn black() -> (c: Self)
        ensures
            c == (Color { r: 0, g: 0, b: 0, a: 255 }),
    {
        Self { r: 0, g: 0, b: 0, a: 255 }
    }

    pub fn rgba(r: u8, g: u8, b: u8, a: u8) -> (c: Self)
        ensures
            c == (Color { r, g, b, a }),
    {
        Self { r, g, b, a }
    }

    /// An opaque colour.
    pub fn rgb(r: u8, g: u8, b: u8) -> (c: Self)
        ensures
            c == (Color { r, g, b, a: 255 }),
    {
        Self { r, g, b, a: 255 }
    }

    pub fn is_transparent(self) -> (t: bool)
        ensures
            t == (self.a == 0),
    {
        self.a == 0
    }
}

impl Default for Color {
    fn default() -> (c: Self)
        ensures
            c == (Color { r: 0, g: 0, b: 0, a: 0 }),
    {
        Self::transparent()
    }
}

#[derive(Clone, Copy, Debug, PartialEq, Eq, Structural)]
pub enum Display {
    /// `display: none`: the element is not laid out.
    Gone,
    Flex,
    Block,
}

#[derive(Clone, Copy, Debug, PartialEq, Eq, Structural)]
pub enum Position {
    Relative,
    Absolute,
}

#[derive(Clone, Copy, Debug, PartialEq, Eq, Structural)]
pub enum Visibility {
    Visible,
    Hidden,
}

#[derive(Clone, Copy, Debug, PartialEq, Eq, Structural)]
pub enum FlexDirection {
    Row,
    Column,
    RowReverse,
    ColumnReverse,
}

#[derive(Clone, Copy, Debug, PartialEq, Eq, Structural)]
pub enum FlexWrap {
    NoWrap,
    Wrap,
    WrapReverse,
}

#[derive(Clone, Copy, Debug, PartialEq, Eq, Structural)]
pub enum AlignItems {
    FlexStart,
    FlexEnd,
    Center,
    Stretch,
    Baseline,
}

#[derive(Clone, Copy, Debug, PartialEq, Eq, Structural)]
pub enum JustifyContent {
    FlexStart,
    FlexEnd,
    Center,
    SpaceBetween,
    SpaceAround,
    SpaceEvenly,
}

#[derive(Clone, Copy, Debug, PartialEq, Eq, Structural)]
pub enum AlignSelf {
    Auto,
    FlexStart,
    FlexEnd,
    Center,
    Stretch,
    Baseline,
}

#[derive(Clone, Copy, Debug, PartialEq, Eq, Structural)]
pub enum Overflow {
    Visible,
    Hidden,
    Scroll,
}

#[derive(Clone, Copy, Debug, PartialEq, Eq, Structural)]
pub enum FontWeight {
    Thin,
    ExtraLight,
    Light,
    Regular,
    Medium,
    SemiBold,
    Bold,
    ExtraBold,
    Black,
}

#[derive(Clone, Copy, Debug, PartialEq, Eq, Structural)]
pub enum OverflowWrap {
    Normal,
    Anywhere,
    BreakWord,
}

#[derive(Clone, Copy, Debug, PartialEq, Eq, Structural)]
pub enum WordBreak {
    Normal,
    BreakAll,
    KeepAll,
}

impl Default for Display {
    fn default() -> (d: Self)
        ensures
            d == Display::Flex,
    {
        Display::Flex
    }
}

impl Default for Position {
    fn default() -> (d: Self)
        ensures
            d == Position::Relative,
    {
        Position::Relative
    }
}

impl Default for Visibility {
    fn default() -> (d: Self)
        ensures
            d == Visibility::Visible,
    {
        Visibility::Visible
    }
}

impl Default for FlexDirection {
    fn default() -> (d: Self)
        ensures
            d == FlexDirection::Row,
    {
        FlexDirection::Row
    }
}

impl Default for FlexWrap {
    fn default() -> (d: Self)
        ensures
            d == FlexWrap::NoWrap,
    {
        FlexWrap::NoWrap
    }
}

impl Default for AlignItems {
    fn default() -> (d: Self)
        ensures
            d == AlignItems::Stretch,
    {
        AlignItems::Stretch
    }
}

impl Default for JustifyContent {
    fn default() -> (d: Self)
        ensures
            d == JustifyContent::FlexStart,
    {
        JustifyContent::FlexStart
    }
}

impl Default for AlignSelf {
    fn default() -> (d: Self)
        ensures
            d == AlignSelf::Auto,
    {
        AlignSelf::Auto
    }
}

impl Default for Overflow {
    fn default() -> (d: Self)
        ensures
            d == Overflow::Visible,
    {
        Overflow::Visible
    }
}

impl Default for FontWeight {
    fn default() -> (d: Self)
        ensures
            d == FontWeight::Regular,
    {
        FontWeight::Regular
    }
}

impl Default for OverflowWrap {
    fn default() -> (d: Self)
        ensures
            d == OverflowWrap::BreakWord,
    {
        OverflowWrap::BreakWord
    }
}

impl Default for WordBreak {
    fn default() -> (d: Self)
        ensures
            d == WordBreak::Normal,
    {
        WordBreak::Normal
    }
}

/// Whether text in an element can be selected: inherited from the parent, or
/// set either way.
#[derive(Clone, Copy, Debug, PartialEq, Eq, Structural)]
pub enum TextSelectable {
    Inherit,
    True,
    False,
}

impl Default for TextSelectable {
    fn default() -> (d: Self)
        ensures
            d == TextSelectable::Inherit,
    {
        TextSelectable::Inherit
    }
}

impl From<bool> for TextSelectable {
    fn from(value: bool) -> (t: Self) {
        if value {
            TextSelectable::True
        } else {
            TextSelectable::False
        }
    }
}

impl vstd::std_specs::convert::FromSpecImpl<bool> for TextSelectable {
    open spec fn obeys_from_spec() -> bool {
        true
    }

    open spec fn from_spec(v: bool) -> TextSelectable {
        if v {
            TextSelectable::True
        } else {
            TextSelectable::False
        }
    }
}

impl TextSelectable {
    /// An explicit setting: `True` or `False`.
    pub fn from_bool(value: bool) -> (t: Self)
        ensures
            t == (if value {
                TextSelectable::True
            } else {
                TextSelectable::False
            }),
    {
        if value {
            Self::True
        } else {
            Self::False
        }
    }

    /// The explicit setting, or `None` when inherited.
    pub fn as_value(&self) -> (v: Option<bool>)
        ensures
            v == (match *self {
                TextSelectable::Inherit => None,
                TextSelectable::True => Some(true),
                TextSelectable::False => Some(false),
            }),
    {
        match self {
            Self::Inherit => None,
            Self::True => Some(true),
            Self::False => Some(false),
        }
    }

    /// Whether text is selectable; inherited counts as not.
    pub fn selectable(&self) -> (b: bool)
        ensures
            b == (*self == TextSelectable::True),
    {
        match self {
            Self::True => true,
            _ => false,
        }
    }
}

// ── Enumerated style properties ───────────────────────────────────────────

/// The style properties whose values are drawn from a fixed set of keywords.
#[derive(Clone, Copy, Debug, PartialEq, Eq, Structural)]
pub enum EnumProp {
    FlexDir,
    Items,
    Justify,
    Display,
    OverflowWrap,
    WordBreak,
    Position,
}

/// A value of an enumerated style property.
#[derive(Clone, Copy, Debug, PartialEq, Eq, Structural)]
pub enum EnumStyleValue {
    FlexDirection(FlexDirection),
    AlignItems(AlignItems),
    JustifyContent(JustifyContent),
    Display(Display),
    OverflowWrap(OverflowWrap),
    WordBreak(WordBreak),
    Position(Position),
}

/// The value that a numeric code sets for a property; codes out of range set
/// the property's fallback.
pub open spec fn enum_value_of(prop: EnumProp, code: i32) -> EnumStyleValue {
    match prop {
        EnumProp::FlexDir => EnumStyleValue::FlexDirection(
            if code == 1 {
                FlexDirection::Column
            } else if code == 2 {
                FlexDirection::RowReverse
            } else if code == 3 {
                FlexDirection::ColumnReverse
            } else {
                FlexDirection::Row
            },
        ),
        EnumProp::Items => EnumStyleValue::AlignItems(
            if code == 0 {
                AlignItems::FlexStart
            } else if code == 1 {
                AlignItems::FlexEnd
            } else if code == 2 {
                AlignItems::Center
            } else if code == 4 {
                AlignItems::Baseline
            } else {
                AlignItems::Stretch
            },
        ),
        EnumProp::Justify => EnumStyleValue::JustifyContent(
            if code == 1 {
                JustifyContent::FlexEnd
            } else if code == 2 {
                JustifyContent::Center
            } else if code == 3 {
                JustifyContent::SpaceBetween
            } else if code == 4 {
                JustifyContent::SpaceAround
            } else if code == 5 {
                JustifyContent::SpaceEvenly
            } else {
                JustifyContent::FlexStart
            },
        ),
        EnumProp::Display => EnumStyleValue::Display(
            if code == 0 {
                Display::Gone
            } else if code == 2 {
                Display::Block
            } else {
                Display::Flex
            },
        ),
        EnumProp::OverflowWrap => EnumStyleValue::OverflowWrap(
            if code == 1 {
                OverflowWrap::Anywhere
            } else if code == 2 {
                OverflowWrap::BreakWord
            } else {
                OverflowWrap::Normal
            },
        ),
        EnumProp::WordBreak => EnumStyleValue::WordBreak(
            if code == 1 {
                WordBreak::BreakAll
            } else if code == 2 {
                WordBreak::KeepAll
            } else {
                WordBreak::Normal
            },
        ),
        EnumProp::Position => EnumStyleValue::Position(
            if code == 1 {
                Position::Absolute
            } else {
                Position::Relative
            },
        ),
    }
}

/// The value a numeric code sets for an enumerated property.
pub fn enum_value_from_code(prop: EnumProp, code: i32) -> (v: EnumStyleValue)
    ensures
        v == enum_value_of(prop, code),
{
    match prop {
        EnumProp::FlexDir => EnumStyleValue::FlexDirection(
            if code == 1 {
                FlexDirection::Column
            } else if code == 2 {
                FlexDirection::RowReverse
            } else if code == 3 {
                FlexDirection::ColumnReverse
            } else {
                FlexDirection::Row
            },
        ),
        EnumProp::Items => EnumStyleValue::AlignItems(
            if code == 0 {
                AlignItems::FlexStart
            } else if code == 1 {
                AlignItems::FlexEnd
            } else if code == 2 {
                AlignItems::Center
            } else if code == 4 {
                AlignItems::Baseline
            } else {
                AlignItems::Stretch
            },
        ),
        EnumProp::Justify => EnumStyleValue::JustifyContent(
            if code == 1 {
                JustifyContent::FlexEnd
            } else if code == 2 {
                JustifyContent::Center
            } else if code == 3 {
                JustifyContent::SpaceBetween
            } else if code == 4 {
                JustifyContent::SpaceAround
            } else if code == 5 {
                JustifyContent::SpaceEvenly
            } else {
                JustifyContent::FlexStart
            },
        ),
        EnumProp::Display => EnumStyleValue::Display(
            if code == 0 {
                Display::Gone
            } else if code == 2 {
                Display::Block
            } else {
                Display::Flex
            },
        ),
        EnumProp::OverflowWrap => EnumStyleValue::OverflowWrap(
            if code == 1 {
                OverflowWrap::Anywhere
            } else if code == 2 {
                OverflowWrap::BreakWord
            } else {
                OverflowWrap::Normal
            },
        ),
        EnumProp::WordBreak => EnumStyleValue::WordBreak(
            if code == 1 {
                WordBreak::BreakAll
            } else if code == 2 {
                WordBreak::KeepAll
            } else {
                WordBreak::Normal
            },
        ),
        EnumProp::Position => EnumStyleValue::Position(
            if code == 1 {
                Position::Absolute
            } else {
                Position::Relative
            },
        ),
    }
}

/// The flex direction a keyword names.
pub open spec fn flex_direction_keyword(t: Seq<char>) -> Option<FlexDirection> {
    if t == "row"@ {
        Some(FlexDirection::Row)
    } else if t == "col"@ || t == "column"@ {
        Some(FlexDirection::Column)
    } else if t == "row-reverse"@ {
        Some(FlexDirection::RowReverse)
    } else if t == "col-reverse"@ || t == "column-reverse"@ {
        Some(FlexDirection::ColumnReverse)
    } else {
        None
    }
}

/// The numeric code of a keyword for an enumerated property, or `None` when
/// the property does not know the keyword.
pub open spec fn enum_keyword_code(prop: EnumProp, t: Seq<char>) -> Option<i32> {
    match prop {
        EnumProp::FlexDir => if t == "row"@ {
            Some(0i32)
        } else if t == "col"@ || t == "column"@ {
            Some(1i32)
        } else if t == "row-reverse"@ {
            Some(2i32)
        } else if t == "col-reverse"@ || t == "column-reverse"@ {
            Some(3i32)
        } else {
            None
        },
        EnumProp::Items => if t == "flex-start"@ || t == "start"@ {
            Some(0i32)
        } else if t == "flex-end"@ || t == "end"@ {
            Some(1i32)
        } else if t == "center"@ {
            Some(2i32)
        } else if t == "stretch"@ {
            Some(3i32)
        } else if t == "baseline"@ {
            Some(4i32)
        } else {
            None
        },
        EnumProp::Justify => if t == "flex-start"@ || t == "start"@ {
            Some(0i32)
        } else if t == "flex-end"@ || t == "end"@ {
            Some(1i32)
        } else if t == "center"@ {
            Some(2i32)
        } else if t == "space-between"@ || t == "between"@ {
            Some(3i32)
        } else if t == "space-around"@ || t == "around"@ {
            Some(4i32)
        } else if t == "space-evenly"@ || t == "evenly"@ {
            Some(5i32)
        } else {
            None
        },
        EnumProp::Display => if t == "none"@ {
            Some(0i32)
        } else if t == "flex"@ {
            Some(1i32)
        } else if t == "block"@ {
            Some(2i32)
        } else {
            None
        },
        EnumProp::OverflowWrap => if t == "normal"@ {
            Some(0i32)
        } else if t == "anywhere"@ {
            Some(1i32)
        } else if t == "break-word"@ {
            Some(2i32)
        } else {
            None
        },
        EnumProp::WordBreak => if t == "normal"@ {
            Some(0i32)
        } else if t == "break-all"@ {
            Some(1i32)
        } else if t == "keep-all"@ {
            Some(2i32)
        } else {
            None
        },
        EnumProp::Position => if t == "relative"@ {
            Some(0i32)
        } else if t == "absolute"@ {
            Some(1i32)
        } else {
            None
        },
    }
}

/// The numeric code of a keyword (white space around it ignored).
pub fn enum_code_from_keyword(prop: EnumProp, value: &str) -> (r: Option<i32>)
    ensures
        r == enum_keyword_code(prop, trim_end(trim_start(value@))),
{
    let t = trim_str(value);
    match prop {
        EnumProp::FlexDir => if str_eq(t, "row") {
            Some(0)
        } else if str_eq(t, "col") || str_eq(t, "column") {
            Some(1)
        } else if str_eq(t, "row-reverse") {
            Some(2)
        } else if str_eq(t, "col-reverse") || str_eq(t, "column-reverse") {
            Some(3)
        } else {
            None
        },
        EnumProp::Items => if str_eq(t, "flex-start") || str_eq(t, "start") {
            Some(0)
        } else if str_eq(t, "flex-end") || str_eq(t, "end") {
            Some(1)
        } else if str_eq(t, "center") {
            Some(2)
        } else if str_eq(t, "stretch") {
            Some(3)
        } else if str_eq(t, "baseline") {
            Some(4)
        } else {
            None
        },
        EnumProp::Justify => if str_eq(t, "flex-start") || str_eq(t, "start") {
            Some(0)
        } else if str_eq(t, "flex-end") || str_eq(t, "end") {
            Some(1)
        } else if str_eq(t, "center") {
            Some(2)
        } else if str_eq(t, "space-between") || str_eq(t, "between") {
            Some(3)
        } else if str_eq(t, "space-around") || str_eq(t, "around") {
            Some(4)
        } else if str_eq(t, "space-evenly") || str_eq(t, "evenly") {
            Some(5)
        } else {
            None
        },
        EnumProp::Display => if str_eq(t, "none") {
            Some(0)
        } else if str_eq(t, "flex") {
            Some(1)
        } else if str_eq(t, "block") {
            Some(2)
        } else {
            None
        },
        EnumProp::OverflowWrap => if str_eq(t, "normal") {
            Some(0)
        } else if str_eq(t, "anywhere") {
            Some(1)
        } else if str_eq(t, "break-word") {
            Some(2)
        } else {
            None
        },
        EnumProp::WordBreak => if str_eq(t, "normal") {
            Some(0)
        } else if str_eq(t, "break-all") {
            Some(1)
        } else if str_eq(t, "keep-all") {
            Some(2)
        } else {
            None
        },
        EnumProp::Position => if str_eq(t, "relative") {
            Some(0)
        } else if str_eq(t, "absolute") {
            Some(1)
        } else {
            None
        },
    }
}

/// The value a keyword sets for an enumerated property, or `None` for an
/// unknown keyword (the property is then cleared).
pub fn enum_value_from_keyword(prop: EnumProp, value: &str) -> (r: Option<EnumStyleValue>)
    ensures
        r == (match enum_keyword_code(prop, trim_end(trim_start(value@))) {
            Some(code) => Some(enum_value_of(prop, code)),
            None => None,
        }),
{
    match enum_code_from_keyword(prop, value) {
        Some(code) => Some(enum_value_from_code(prop, code)),
        None => None,
    }
}

/// The flex direction of a `flex` shorthand keyword such as `"col"`; `None`
/// when the value is not a direction keyword.
pub fn flex_direction_from_keyword(value: &str) -> (r: Option<FlexDirection>)
    ensures
        r == flex_direction_keyword(trim_end(trim_start(value@))),
{
    let t = trim_str(value);
    if str_eq(t, "row") {
        Some(FlexDirection::Row)
    } else if str_eq(t, "col") || str_eq(t, "column") {
        Some(FlexDirection::Column)
    } else if str_eq(t, "row-reverse") {
        Some(FlexDirection::RowReverse)
    } else if str_eq(t, "col-reverse") || str_eq(t, "column-reverse") {
        Some(FlexDirection::ColumnReverse)
    } else {
        None
    }
}

/// A keyword that a property knows sets the value its code stands for, and
/// that value round-trips: each known keyword's code maps into the property's
/// own kind of value.
pub proof fn law_keyword_value_matches_prop(prop: EnumProp, t: Seq<char>)
    requires
        enum_keyword_code(prop, t) is Some,
    ensures
        ({
            let v = enum_value_of(prop, enum_keyword_code(prop, t).unwrap());
            match prop {
                EnumProp::FlexDir => v is FlexDirection,
                EnumProp::Items => v is AlignItems,
                EnumProp::Justify => v is JustifyContent,
                EnumProp::Display => v is Display,
                EnumProp::OverflowWrap => v is OverflowWrap,
                EnumProp::WordBreak => v is WordBreak,
                EnumProp::Position => v is Position,
            }
        }),
        prop == EnumProp::FlexDir ==> enum_value_of(prop, enum_keyword_code(prop, t).unwrap())
            == EnumStyleValue::FlexDirection(flex_direction_keyword(t).unwrap()),
{
}

/// The CSS keyword that names a value, as a style sheet writes it.
pub open spec fn value_keyword(v: EnumStyleValue) -> Seq<char> {
    match v {
        EnumStyleValue::FlexDirection(x) => match x {
            FlexDirection::Row => "row"@,
            FlexDirection::Column => "column"@,
            FlexDirection::RowReverse => "row-reverse"@,
            FlexDirection::ColumnReverse => "column-reverse"@,
        },
        EnumStyleValue::AlignItems(x) => match x {
            AlignItems::FlexStart => "flex-start"@,
            AlignItems::FlexEnd => "flex-end"@,
            AlignItems::Center => "center"@,
            AlignItems::Stretch => "stretch"@,
            AlignItems::Baseline => "baseline"@,
        },
        EnumStyleValue::JustifyContent(x) => match x {
            JustifyContent::FlexStart => "flex-start"@,
            JustifyContent::FlexEnd => "flex-end"@,
            JustifyContent::Center => "center"@,
            JustifyContent::SpaceBetween => "space-between"@,
            JustifyContent::SpaceAround => "space-around"@,
            JustifyContent::SpaceEvenly => "space-evenly"@,
        },
        EnumStyleValue::Display(x) => match x {
            Display::Gone => "none"@,
            Display::Flex => "flex"@,
            Display::Block => "block"@,
        },
        EnumStyleValue::OverflowWrap(x) => match x {
            OverflowWrap::Normal => "normal"@,
            OverflowWrap::Anywhere => "anywhere"@,
            OverflowWrap::BreakWord => "break-word"@,
        },
        EnumStyleValue::WordBreak(x) => match x {
            WordBreak::Normal => "normal"@,
            WordBreak::BreakAll => "break-all"@,
            WordBreak::KeepAll => "keep-all"@,
        },
        EnumStyleValue::Position(x) => match x {
            Position::Relative => "relative"@,
            Position::Absolute => "absolute"@,
        },
    }
}

/// The property a value belongs to.
pub open spec fn value_prop(v: EnumStyleValue) -> EnumProp {
    match v {
        EnumStyleValue::FlexDirection(_) => EnumProp::FlexDir,
        EnumStyleValue::AlignItems(_) => EnumProp::Items,
        EnumStyleValue::JustifyContent(_) => EnumProp::Justify,
        EnumStyleValue::Display(_) => EnumProp::Display,
        EnumStyleValue::OverflowWrap(_) => EnumProp::OverflowWrap,
        EnumStyleValue::WordBreak(_) => EnumProp::WordBreak,
        EnumStyleValue::Position(_) => EnumProp::Position,
    }
}

/// Every value of an enumerated property is set by the keyword that names
/// it: the keyword is known to the property, and the code it stands for
/// sets exactly that value. So distinct values have distinct keywords and
/// distinct codes, and no keyword sets another value than its own.
pub proof fn law_keyword_sets_named_value(v: EnumStyleValue)
    ensures
        enum_keyword_code(value_prop(v), value_keyword(v)) is Some,
        enum_value_of(value_prop(v), enum_keyword_code(value_prop(v), value_keyword(v)).unwrap()) == v,
{
    match v {
        EnumStyleValue::FlexDirection(_) => {
            reveal_strlit("row");
            assert("row"@.len() == 3 && "row"@[0] == 'r' && "row"@[1] == 'o' && "row"@[2] == 'w');
            reveal_strlit("col");
            assert("col"@.len() == 3 && "col"@[0] == 'c' && "col"@[1] == 'o' && "col"@[2] == 'l');
            reveal_strlit("column");
            assert("column"@.len() == 6 && "column"@[0] == 'c' && "column"@[1] == 'o' && "column"@[2] == 'l' && "column"@[3] == 'u' && "column"@[4] == 'm' && "column"@[5] == 'n');
            reveal_strlit("row-reverse");
            assert("row-reverse"@.len() == 11 && "row-reverse"@[0] == 'r' && "row-reverse"@[1] == 'o' && "row-reverse"@[2] == 'w' && "row-reverse"@[3] == '-' && "row-reverse"@[4] == 'r' && "row-reverse"@[5] == 'e' && "row-reverse"@[6] == 'v' && "row-reverse"@[7] == 'e' && "row-reverse"@[8] == 'r' && "row-reverse"@[9] == 's' && "row-reverse"@[10] == 'e');
            reveal_strlit("col-reverse");
            assert("col-reverse"@.len() == 11 && "col-reverse"@[0] == 'c' && "col-reverse"@[1] == 'o' && "col-reverse"@[2] == 'l' && "col-reverse"@[3] == '-' && "col-reverse"@[4] == 'r' && "col-reverse"@[5] == 'e' && "col-reverse"@[6] == 'v' && "col-reverse"@[7] == 'e' && "col-reverse"@[8] == 'r' && "col-reverse"@[9] == 's' && "col-reverse"@[10] == 'e');
            reveal_strlit("column-reverse");
            assert("column-reverse"@.len() == 14 && "column-reverse"@[0] == 'c' && "column-reverse"@[1] == 'o' && "column-reverse"@[2] == 'l' && "column-reverse"@[3] == 'u' && "column-reverse"@[4] == 'm' && "column-reverse"@[5] == 'n' && "column-reverse"@[6] == '-' && "column-reverse"@[7] == 'r' && "column-reverse"@[8] == 'e' && "column-reverse"@[9] == 'v' && "column-reverse"@[10] == 'e' && "column-reverse"@[11] == 'r' && "column-reverse"@[12] == 's' && "column-reverse"@[13] == 'e');
        },
        EnumStyleValue::AlignItems(_) => {
            reveal_strlit("flex-start");
            assert("flex-start"@.len() == 10 && "flex-start"@[0] == 'f' && "flex-start"@[1] == 'l' && "flex-start"@[2] == 'e' && "flex-start"@[3] == 'x' && "flex-start"@[4] == '-' && "flex-start"@[5] == 's' && "flex-start"@[6] == 't' && "flex-start"@[7] == 'a' && "flex-start"@[8] == 'r' && "flex-start"@[9] == 't');
            reveal_strlit("start");
            assert("start"@.len() == 5 && "start"@[0] == 's' && "start"@[1] == 't' && "start"@[2] == 'a' && "start"@[3] == 'r' && "start"@[4] == 't');
            reveal_strlit("flex-end");
            assert("flex-end"@.len() == 8 && "flex-end"@[0] == 'f' && "flex-end"@[1] == 'l' && "flex-end"@[2] == 'e' && "flex-end"@[3] == 'x' && "flex-end"@[4] == '-' && "flex-end"@[5] == 'e' && "flex-end"@[6] == 'n' && "flex-end"@[7] == 'd');
            reveal_strlit("end");
            assert("end"@.len() == 3 && "end"@[0] == 'e' && "end"@[1] == 'n' && "end"@[2] == 'd');
            reveal_strlit("center");
            assert("center"@.len() == 6 && "center"@[0] == 'c' && "center"@[1] == 'e' && "center"@[2] == 'n' && "center"@[3] == 't' && "center"@[4] == 'e' && "center"@[5] == 'r');
            reveal_strlit("stretch");
            assert("stretch"@.len() == 7 && "stretch"@[0] == 's' && "stretch"@[1] == 't' && "stretch"@[2] == 'r' && "stretch"@[3] == 'e' && "stretch"@[4] == 't' && "stretch"@[5] == 'c' && "stretch"@[6] == 'h');
            reveal_strlit("baseline");
            assert("baseline"@.len() == 8 && "baseline"@[0] == 'b' && "baseline"@[1] == 'a' && "baseline"@[2] == 's' && "baseline"@[3] == 'e' && "baseline"@[4] == 'l' && "baseline"@[5] == 'i' && "baseline"@[6] == 'n' && "baseline"@[7] == 'e');
        },
        EnumStyleValue::JustifyContent(_) => {
            reveal_strlit("flex-start");
            assert("flex-start"@.len() == 10 && "flex-start"@[0] == 'f' && "flex-start"@[1] == 'l' && "flex-start"@[2] == 'e' && "flex-start"@[3] == 'x' && "flex-start"@[4] == '-' && "flex-start"@[5] == 's' && "flex-start"@[6] == 't' && "flex-start"@[7] == 'a' && "flex-start"@[8] == 'r' && "flex-start"@[9] == 't');
            reveal_strlit("start");
            assert("start"@.len() == 5 && "start"@[0] == 's' && "start"@[1] == 't' && "start"@[2] == 'a' && "start"@[3] == 'r' && "start"@[4] == 't');
            reveal_strlit("flex-end");
            assert("flex-end"@.len() == 8 && "flex-end"@[0] == 'f' && "flex-end"@[1] == 'l' && "flex-end"@[2] == 'e' && "flex-end"@[3] == 'x' && "flex-end"@[4] == '-' && "flex-end"@[5] == 'e' && "flex-end"@[6] == 'n' && "flex-end"@[7] == 'd');
            reveal_strlit("end");
            assert("end"@.len() == 3 && "end"@[0] == 'e' && "end"@[1] == 'n' && "end"@[2] == 'd');
            reveal_strlit("center");
            assert("center"@.len() == 6 && "center"@[0] == 'c' && "center"@[1] == 'e' && "center"@[2] == 'n' && "center"@[3] == 't' && "center"@[4] == 'e' && "center"@[5] == 'r');
            reveal_strlit("space-between");
            assert("space-between"@.len() == 13 && "space-between"@[0] == 's' && "space-between"@[1] == 'p' && "space-between"@[2] == 'a' && "space-between"@[3] == 'c' && "space-between"@[4] == 'e' && "space-between"@[5] == '-' && "space-between"@[6] == 'b' && "space-between"@[7] == 'e' && "space-between"@[8] == 't' && "space-between"@[9] == 'w' && "space-between"@[10] == 'e' && "space-between"@[11] == 'e' && "space-between"@[12] == 'n');
            reveal_strlit("between");
            assert("between"@.len() == 7 && "between"@[0] == 'b' && "between"@[1] == 'e' && "between"@[2] == 't' && "between"@[3] == 'w' && "between"@[4] == 'e' && "between"@[5] == 'e' && "between"@[6] == 'n');
            reveal_strlit("space-around");
            assert("space-around"@.len() == 12 && "space-around"@[0] == 's' && "space-around"@[1] == 'p' && "space-around"@[2] == 'a' && "space-around"@[3] == 'c' && "space-around"@[4] == 'e' && "space-around"@[5] == '-' && "space-around"@[6] == 'a' && "space-around"@[7] == 'r' && "space-around"@[8] == 'o' && "space-around"@[9] == 'u' && "space-around"@[10] == 'n' && "space-around"@[11] == 'd');
            reveal_strlit("around");
            assert("around"@.len() == 6 && "around"@[0] == 'a' && "around"@[1] == 'r' && "around"@[2] == 'o' && "around"@[3] == 'u' && "around"@[4] == 'n' && "around"@[5] == 'd');
            reveal_strlit("space-evenly");
            assert("space-evenly"@.len() == 12 && "space-evenly"@[0] == 's' && "space-evenly"@[1] == 'p' && "space-evenly"@[2] == 'a' && "space-evenly"@[3] == 'c' && "space-evenly"@[4] == 'e' && "space-evenly"@[5] == '-' && "space-evenly"@[6] == 'e' && "space-evenly"@[7] == 'v' && "space-evenly"@[8] == 'e' && "space-evenly"@[9] == 'n' && "space-evenly"@[10] == 'l' && "space-evenly"@[11] == 'y');
            reveal_strlit("evenly");
            assert("evenly"@.len() == 6 && "evenly"@[0] == 'e' && "evenly"@[1] == 'v' && "evenly"@[2] == 'e' && "evenly"@[3] == 'n' && "evenly"@[4] == 'l' && "evenly"@[5] == 'y');
        },
        EnumStyleValue::Display(_) => {
            reveal_strlit("none");
            assert("none"@.len() == 4 && "none"@[0] == 'n' && "none"@[1] == 'o' && "none"@[2] == 'n' && "none"@[3] == 'e');
            reveal_strlit("flex");
            assert("flex"@.len() == 4 && "flex"@[0] == 'f' && "flex"@[1] == 'l' && "flex"@[2] == 'e' && "flex"@[3] == 'x');
            reveal_strlit("block");
            assert("block"@.len() == 5 && "block"@[0] == 'b' && "block"@[1] == 'l' && "block"@[2] == 'o' && "block"@[3] == 'c' && "block"@[4] == 'k');
        },
        EnumStyleValue::OverflowWrap(_) => {
            reveal_strlit("normal");
            assert("normal"@.len() == 6 && "normal"@[0] == 'n' && "normal"@[1] == 'o' && "normal"@[2] == 'r' && "normal"@[3] == 'm' && "normal"@[4] == 'a' && "normal"@[5] == 'l');
            reveal_strlit("anywhere");
            assert("anywhere"@.len() == 8 && "anywhere"@[0] == 'a' && "anywhere"@[1] == 'n' && "anywhere"@[2] == 'y' && "anywhere"@[3] == 'w' && "anywhere"@[4] == 'h' && "anywhere"@[5] == 'e' && "anywhere"@[6] == 'r' && "anywhere"@[7] == 'e');
            reveal_strlit("break-word");
            assert("break-word"@.len() == 10 && "break-word"@[0] == 'b' && "break-word"@[1] == 'r' && "break-word"@[2] == 'e' && "break-word"@[3] == 'a' && "break-word"@[4] == 'k' && "break-word"@[5] == '-' && "break-word"@[6] == 'w' && "break-word"@[7] == 'o' && "break-word"@[8] == 'r' && "break-word"@[9] == 'd');
        },
        EnumStyleValue::WordBreak(_) => {
            reveal_strlit("normal");
            assert("normal"@.len() == 6 && "normal"@[0] == 'n' && "normal"@[1] == 'o' && "normal"@[2] == 'r' && "normal"@[3] == 'm' && "normal"@[4] == 'a' && "normal"@[5] == 'l');
            reveal_strlit("break-all");
            assert("break-all"@.len() == 9 && "break-all"@[0] == 'b' && "break-all"@[1] == 'r' && "break-all"@[2] == 'e' && "break-all"@[3] == 'a' && "break-all"@[4] == 'k' && "break-all"@[5] == '-' && "break-all"@[6] == 'a' && "break-all"@[7] == 'l' && "break-all"@[8] == 'l');
            reveal_strlit("keep-all");
            assert("keep-all"@.len() == 8 && "keep-all"@[0] == 'k' && "keep-all"@[1] == 'e' && "keep-all"@[2] == 'e' && "keep-all"@[3] == 'p' && "keep-all"@[4] == '-' && "keep-all"@[5] == 'a' && "keep-all"@[6] == 'l' && "keep-all"@[7] == 'l');
        },
        EnumStyleValue::Position(_) => {
            reveal_strlit("relative");
            assert("relative"@.len() == 8 && "relative"@[0] == 'r' && "relative"@[1] == 'e' && "relative"@[2] == 'l' && "relative"@[3] == 'a' && "relative"@[4] == 't' && "relative"@[5] == 'i' && "relative"@[6] == 'v' && "relative"@[7] == 'e');
            reveal_strlit("absolute");
            assert("absolute"@.len() == 8 && "absolute"@[0] == 'a' && "absolute"@[1] == 'b' && "absolute"@[2] == 's' && "absolute"@[3] == 'o' && "absolute"@[4] == 'l' && "absolute"@[5] == 'u' && "absolute"@[6] == 't' && "absolute"@[7] == 'e');
        },
    }
}

/// The short spellings set the same value as the full keyword: `col` as
/// `column`, `col-reverse` as `column-reverse`, `start` as `flex-start`,
/// `end` as `flex-end`, and `between`, `around`, `evenly` as their
/// `space-` forms.
pub proof fn law_keyword_aliases()
    ensures
        enum_keyword_code(EnumProp::FlexDir, "col"@) == enum_keyword_code(EnumProp::FlexDir, "column"@),
        enum_keyword_code(EnumProp::FlexDir, "col-reverse"@) == enum_keyword_code(EnumProp::FlexDir, "column-reverse"@),
        enum_keyword_code(EnumProp::Items, "start"@) == enum_keyword_code(EnumProp::Items, "flex-start"@),
        enum_keyword_code(EnumProp::Items, "end"@) == enum_keyword_code(EnumProp::Items, "flex-end"@),
        enum_keyword_code(EnumProp::Justify, "start"@) == enum_keyword_code(EnumProp::Justify, "flex-start"@),
        enum_keyword_code(EnumProp::Justify, "end"@) == enum_keyword_code(EnumProp::Justify, "flex-end"@),
        enum_keyword_code(EnumProp::Justify, "between"@) == enum_keyword_code(EnumProp::Justify, "space-between"@),
        enum_keyword_code(EnumProp::Justify, "around"@) == enum_keyword_code(EnumProp::Justify, "space-around"@),
        enum_keyword_code(EnumProp::Justify, "evenly"@) == enum_keyword_code(EnumProp::Justify, "space-evenly"@),
{
    reveal_strlit("around");
    assert("around"@.len() == 6 && "around"@[0] == 'a' && "around"@[1] == 'r' && "around"@[2] == 'o' && "around"@[3] == 'u' && "around"@[4] == 'n' && "around"@[5] == 'd');
    reveal_strlit("baseline");
    assert("baseline"@.len() == 8 && "baseline"@[0] == 'b' && "baseline"@[1] == 'a' && "baseline"@[2] == 's' && "baseline"@[3] == 'e' && "baseline"@[4] == 'l' && "baseline"@[5] == 'i' && "baseline"@[6] == 'n' && "baseline"@[7] == 'e');
    reveal_strlit("between");
    assert("between"@.len() == 7 && "between"@[0] == 'b' && "between"@[1] == 'e' && "between"@[2] == 't' && "between"@[3] == 'w' && "between"@[4] == 'e' && "between"@[5] == 'e' && "between"@[6] == 'n');
    reveal_strlit("center");
    assert("center"@.len() == 6 && "center"@[0] == 'c' && "center"@[1] == 'e' && "center"@[2] == 'n' && "center"@[3] == 't' && "center"@[4] == 'e' && "center"@[5] == 'r');
    reveal_strlit("col");
    assert("col"@.len() == 3 && "col"@[0] == 'c' && "col"@[1] == 'o' && "col"@[2] == 'l');
    reveal_strlit("col-reverse");
    assert("col-reverse"@.len() == 11 && "col-reverse"@[0] == 'c' && "col-reverse"@[1] == 'o' && "col-reverse"@[2] == 'l' && "col-reverse"@[3] == '-' && "col-reverse"@[4] == 'r' && "col-reverse"@[5] == 'e' && "col-reverse"@[6] == 'v' && "col-reverse"@[7] == 'e' && "col-reverse"@[8] == 'r' && "col-reverse"@[9] == 's' && "col-reverse"@[10] == 'e');
    reveal_strlit("column");
    assert("column"@.len() == 6 && "column"@[0] == 'c' && "column"@[1] == 'o' && "column"@[2] == 'l' && "column"@[3] == 'u' && "column"@[4] == 'm' && "column"@[5] == 'n');
    reveal_strlit("column-reverse");
    assert("column-reverse"@.len() == 14 && "column-reverse"@[0] == 'c' && "column-reverse"@[1] == 'o' && "column-reverse"@[2] == 'l' && "column-reverse"@[3] == 'u' && "column-reverse"@[4] == 'm' && "column-reverse"@[5] == 'n' && "column-reverse"@[6] == '-' && "column-reverse"@[7] == 'r' && "column-reverse"@[8] == 'e' && "column-reverse"@[9] == 'v' && "column-reverse"@[10] == 'e' && "column-reverse"@[11] == 'r' && "column-reverse"@[12] == 's' && "column-reverse"@[13] == 'e');
    reveal_strlit("end");
    assert("end"@.len() == 3 && "end"@[0] == 'e' && "end"@[1] == 'n' && "end"@[2] == 'd');
    reveal_strlit("evenly");
    assert("evenly"@.len() == 6 && "evenly"@[0] == 'e' && "evenly"@[1] == 'v' && "evenly"@[2] == 'e' && "evenly"@[3] == 'n' && "evenly"@[4] == 'l' && "evenly"@[5] == 'y');
    reveal_strlit("flex-end");
    assert("flex-end"@.len() == 8 && "flex-end"@[0] == 'f' && "flex-end"@[1] == 'l' && "flex-end"@[2] == 'e' && "flex-end"@[3] == 'x' && "flex-end"@[4] == '-' && "flex-end"@[5] == 'e' && "flex-end"@[6] == 'n' && "flex-end"@[7] == 'd');
    reveal_strlit("flex-start");
    assert("flex-start"@.len() == 10 && "flex-start"@[0] == 'f' && "flex-start"@[1] == 'l' && "flex-start"@[2] == 'e' && "flex-start"@[3] == 'x' && "flex-start"@[4] == '-' && "flex-start"@[5] == 's' && "flex-start"@[6] == 't' && "flex-start"@[7] == 'a' && "flex-start"@[8] == 'r' && "flex-start"@[9] == 't');
    reveal_strlit("row");
    assert("row"@.len() == 3 && "row"@[0] == 'r' && "row"@[1] == 'o' && "row"@[2] == 'w');
    reveal_strlit("row-reverse");
    assert("row-reverse"@.len() == 11 && "row-reverse"@[0] == 'r' && "row-reverse"@[1] == 'o' && "row-reverse"@[2] == 'w' && "row-reverse"@[3] == '-' && "row-reverse"@[4] == 'r' && "row-reverse"@[5] == 'e' && "row-reverse"@[6] == 'v' && "row-reverse"@[7] == 'e' && "row-reverse"@[8] == 'r' && "row-reverse"@[9] == 's' && "row-reverse"@[10] == 'e');
    reveal_strlit("space-around");
    assert("space-around"@.len() == 12 && "space-around"@[0] == 's' && "space-around"@[1] == 'p' && "space-around"@[2] == 'a' && "space-around"@[3] == 'c' && "space-around"@[4] == 'e' && "space-around"@[5] == '-' && "space-around"@[6] == 'a' && "space-around"@[7] == 'r' && "space-around"@[8] == 'o' && "space-around"@[9] == 'u' && "space-around"@[10] == 'n' && "space-around"@[11] == 'd');
    reveal_strlit("space-between");
    assert("space-between"@.len() == 13 && "space-between"@[0] == 's' && "space-between"@[1] == 'p' && "space-between"@[2] == 'a' && "space-between"@[3] == 'c' && "space-between"@[4] == 'e' && "space-between"@[5] == '-' && "space-between"@[6] == 'b' && "space-between"@[7] == 'e' && "space-between"@[8] == 't' && "space-between"@[9] == 'w' && "space-between"@[10] == 'e' && "space-between"@[11] == 'e' && "space-between"@[12] == 'n');
    reveal_strlit("space-evenly");
    assert("space-evenly"@.len() == 12 && "space-evenly"@[0] == 's' && "space-evenly"@[1] == 'p' && "space-evenly"@[2] == 'a' && "space-evenly"@[3] == 'c' && "space-evenly"@[4] == 'e' && "space-evenly"@[5] == '-' && "space-evenly"@[6] == 'e' && "space-evenly"@[7] == 'v' && "space-evenly"@[8] == 'e' && "space-evenly"@[9] == 'n' && "space-evenly"@[10] == 'l' && "space-evenly"@[11] == 'y');
    reveal_strlit("start");
    assert("start"@.len() == 5 && "start"@[0] == 's' && "start"@[1] == 't' && "start"@[2] == 'a' && "start"@[3] == 'r' && "start"@[4] == 't');
    reveal_strlit("stretch");
    assert("stretch"@.len() == 7 && "stretch"@[0] == 's' && "stretch"@[1] == 't' && "stretch"@[2] == 'r' && "stretch"@[3] == 'e' && "stretch"@[4] == 't' && "stretch"@[5] == 'c' && "stretch"@[6] == 'h');
}

/// The brush that text layouts carry: text is painted with the style's
/// color, so it holds nothing.
#[derive(Debug, Clone, Copy, PartialEq, Eq, Structural)]
pub struct TextBrush;

} // verus!
