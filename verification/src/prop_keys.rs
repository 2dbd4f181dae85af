use vstd::prelude::*;

use crate::textkit::str_eq;

verus! {

/// Which style layer an attribute writes: the base style or a state override.
#[derive(Copy, Clone, Debug, Eq, PartialEq, Structural)]
pub enum StyleVariant {
    Base,
    Hover,
    Active,
}

/// A style attribute, by its JSX name.
#[derive(Copy, Clone, Debug, Eq, PartialEq, Structural)]
pub enum StyleProp {
    W,
    H,
    MinW,
    MinH,
    P,
    Px,
    Py,
    Pt,
    Pb,
    Pl,
    Pr,
    M,
    Mx,
    My,
    Mt,
    Mb,
    Ml,
    Mr,
    Flex,
    FlexDir,
    FlexGrow,
    FlexShrink,
    Items,
    Justify,
    Gap,
    Bg,
    Color,
    FontSize,
    FontWeight,
    Rounded,
    RoundedTL,
    RoundedTR,
    RoundedBR,
    RoundedBL,
    Border,
    BorderTop,
    BorderRight,
    BorderBottom,
    BorderLeft,
    BorderColor,
    Opacity,
    Display,
    Cursor,
    Interactive,
    Visibility,
    Scrollable,
    TextSelect,
    TextWrap,
    WordBreak,
    Position,
    Top,
    Right,
    Bottom,
    Left,
    TranslateX,
    TranslateY,
    Rotate,
    Scale,
    ScaleX,
    ScaleY,
}

/// An element attribute, by its JSX name.
#[derive(Copy, Clone, Debug, Eq, PartialEq, Structural)]
pub enum ElementProp {
    Value,
    Placeholder,
    Disabled,
    MaxLength,
    Multiline,
    Secure,
    Checked,
}

/// What an attribute name stands for.
#[derive(Copy, Clone, Debug, Eq, PartialEq, Structural)]
pub enum AttributeKind {
    Style(StyleProp, StyleVariant),
    Element(ElementProp),
}

/// The style property an attribute name names.
pub open spec fn style_prop_named(t: Seq<char>) -> Option<StyleProp> {
    if t == "w"@ {
        Some(StyleProp::W)
    } else if t == "h"@ {
        Some(StyleProp::H)
    } else if t == "minW"@ {
        Some(StyleProp::MinW)
    } else if t == "minH"@ {
        Some(StyleProp::MinH)
    } else if t == "p"@ {
        Some(StyleProp::P)
    } else if t == "px"@ {
        Some(StyleProp::Px)
    } else if t == "py"@ {
        Some(StyleProp::Py)
    } else if t == "pt"@ {
        Some(StyleProp::Pt)
    } else if t == "pb"@ {
        Some(StyleProp::Pb)
    } else if t == "pl"@ {
        Some(StyleProp::Pl)
    } else if t == "pr"@ {
        Some(StyleProp::Pr)
    } else if t == "m"@ {
        Some(StyleProp::M)
    } else if t == "mx"@ {
        Some(StyleProp::Mx)
    } else if t == "my"@ {
        Some(StyleProp::My)
    } else if t == "mt"@ {
        Some(StyleProp::Mt)
    } else if t == "mb"@ {
        Some(StyleProp::Mb)
    } else if t == "ml"@ {
        Some(StyleProp::Ml)
    } else if t == "mr"@ {
        Some(StyleProp::Mr)
    } else if t == "flex"@ {
        Some(StyleProp::Flex)
    } else if t == "flexDir"@ {
        Some(StyleProp::FlexDir)
    } else if t == "flexGrow"@ {
        Some(StyleProp::FlexGrow)
    } else if t == "flexShrink"@ {
        Some(StyleProp::FlexShrink)
    } else if t == "items"@ {
        Some(StyleProp::Items)
    } else if t == "justify"@ {
        Some(StyleProp::Justify)
    } else if t == "gap"@ {
        Some(StyleProp::Gap)
    } else if t == "bg"@ {
        Some(StyleProp::Bg)
    } else if t == "color"@ {
        Some(StyleProp::Color)
    } else if t == "fontSize"@ {
        Some(StyleProp::FontSize)
    } else if t == "fontWeight"@ {
        Some(StyleProp::FontWeight)
    } else if t == "rounded"@ {
        Some(StyleProp::Rounded)
    } else if t == "roundedTL"@ {
        Some(StyleProp::RoundedTL)
    } else if t == "roundedTR"@ {
        Some(StyleProp::RoundedTR)
    } else if t == "roundedBR"@ {
        Some(StyleProp::RoundedBR)
    } else if t == "roundedBL"@ {
        Some(StyleProp::RoundedBL)
    } else if t == "border"@ {
        Some(StyleProp::Border)
    } else if t == "borderTop"@ {
        Some(StyleProp::BorderTop)
    } else if t == "borderRight"@ {
        Some(StyleProp::BorderRight)
    } else if t == "borderBottom"@ {
        Some(StyleProp::BorderBottom)
    } else if t == "borderLeft"@ {
        Some(StyleProp::BorderLeft)
    } else if t == "borderColor"@ {
        Some(StyleProp::BorderColor)
    } else if t == "opacity"@ {
        Some(StyleProp::Opacity)
    } else if t == "display"@ {
        Some(StyleProp::Display)
    } else if t == "cursor"@ {
        Some(StyleProp::Cursor)
    } else if t == "interactive"@ {
        Some(StyleProp::Interactive)
    } else if t == "visibility"@ {
        Some(StyleProp::Visibility)
    } else if t == "scrollable"@ {
        Some(StyleProp::Scrollable)
    } else if t == "selectable"@ {
        Some(StyleProp::TextSelect)
    } else if t == "textWrap"@ {
        Some(StyleProp::TextWrap)
    } else if t == "wordBreak"@ {
        Some(StyleProp::WordBreak)
    } else if t == "position"@ {
        Some(StyleProp::Position)
    } else if t == "top"@ {
        Some(StyleProp::Top)
    } else if t == "right"@ {
        Some(StyleProp::Right)
    } else if t == "bottom"@ {
        Some(StyleProp::Bottom)
    } else if t == "left"@ {
        Some(StyleProp::Left)
    } else if t == "translateX"@ {
        Some(StyleProp::TranslateX)
    } else if t == "translateY"@ {
        Some(StyleProp::TranslateY)
    } else if t == "rotate"@ {
        Some(StyleProp::Rotate)
    } else if t == "scale"@ {
        Some(StyleProp::Scale)
    } else if t == "scaleX"@ {
        Some(StyleProp::ScaleX)
    } else if t == "scaleY"@ {
        Some(StyleProp::ScaleY)
    } else {
        None
    }
}

/// The JSX name of a style property.
pub open spec fn style_prop_name(p: StyleProp) -> Seq<char> {
    match p {
        StyleProp::W => "w"@,
        StyleProp::H => "h"@,
        StyleProp::MinW => "minW"@,
        StyleProp::MinH => "minH"@,
        StyleProp::P => "p"@,
        StyleProp::Px => "px"@,
        StyleProp::Py => "py"@,
        StyleProp::Pt => "pt"@,
        StyleProp::Pb => "pb"@,
        StyleProp::Pl => "pl"@,
        StyleProp::Pr => "pr"@,
        StyleProp::M => "m"@,
        StyleProp::Mx => "mx"@,
        StyleProp::My => "my"@,
        StyleProp::Mt => "mt"@,
        StyleProp::Mb => "mb"@,
        StyleProp::Ml => "ml"@,
        StyleProp::Mr => "mr"@,
        StyleProp::Flex => "flex"@,
        StyleProp::FlexDir => "flexDir"@,
        StyleProp::FlexGrow => "flexGrow"@,
        StyleProp::FlexShrink => "flexShrink"@,
        StyleProp::Items => "items"@,
        StyleProp::Justify => "justify"@,
        StyleProp::Gap => "gap"@,
        StyleProp::Bg => "bg"@,
        StyleProp::Color => "color"@,
        StyleProp::FontSize => "fontSize"@,
        StyleProp::FontWeight => "fontWeight"@,
        StyleProp::Rounded => "rounded"@,
        StyleProp::RoundedTL => "roundedTL"@,
        StyleProp::RoundedTR => "roundedTR"@,
        StyleProp::RoundedBR => "roundedBR"@,
        StyleProp::RoundedBL => "roundedBL"@,
        StyleProp::Border => "border"@,
        StyleProp::BorderTop => "borderTop"@,
        StyleProp::BorderRight => "borderRight"@,
        StyleProp::BorderBottom => "borderBottom"@,
        StyleProp::BorderLeft => "borderLeft"@,
        StyleProp::BorderColor => "borderColor"@,
        StyleProp::Opacity => "opacity"@,
        StyleProp::Display => "display"@,
        StyleProp::Cursor => "cursor"@,
        StyleProp::Interactive => "interactive"@,
        StyleProp::Visibility => "visibility"@,
        StyleProp::Scrollable => "scrollable"@,
        StyleProp::TextSelect => "selectable"@,
        StyleProp::TextWrap => "textWrap"@,
        StyleProp::WordBreak => "wordBreak"@,
        StyleProp::Position => "position"@,
        StyleProp::Top => "top"@,
        StyleProp::Right => "right"@,
        StyleProp::Bottom => "bottom"@,
        StyleProp::Left => "left"@,
        StyleProp::TranslateX => "translateX"@,
        StyleProp::TranslateY => "translateY"@,
        StyleProp::Rotate => "rotate"@,
        StyleProp::Scale => "scale"@,
        StyleProp::ScaleX => "scaleX"@,
        StyleProp::ScaleY => "scaleY"@,
    }
}

/// The element property an attribute name names.
pub open spec fn element_prop_named(t: Seq<char>) -> Option<ElementProp> {
    if t == "value"@ {
        Some(ElementProp::Value)
    } else if t == "placeholder"@ {
        Some(ElementProp::Placeholder)
    } else if t == "disabled"@ {
        Some(ElementProp::Disabled)
    } else if t == "maxLength"@ {
        Some(ElementProp::MaxLength)
    } else if t == "multiline"@ {
        Some(ElementProp::Multiline)
    } else if t == "secure"@ {
        Some(ElementProp::Secure)
    } else if t == "checked"@ {
        Some(ElementProp::Checked)
    } else {
        None
    }
}

/// The JSX name of an element property.
pub open spec fn element_prop_name(p: ElementProp) -> Seq<char> {
    match p {
        ElementProp::Value => "value"@,
        ElementProp::Placeholder => "placeholder"@,
        ElementProp::Disabled => "disabled"@,
        ElementProp::MaxLength => "maxLength"@,
        ElementProp::Multiline => "multiline"@,
        ElementProp::Secure => "secure"@,
        ElementProp::Checked => "checked"@,
    }
}

/// Whether `t` starts with `prefix`.
pub open spec fn has_prefix(t: Seq<char>, prefix: Seq<char>) -> bool {
    prefix.len() <= t.len() && t.take(prefix.len() as int) == prefix
}

/// What an attribute name stands for: an element property; else a style
/// property, under `hover:` or `active:` for those layers.
pub open spec fn attribute_named(t: Seq<char>) -> Option<AttributeKind> {
    if element_prop_named(t) is Some {
        Some(AttributeKind::Element(element_prop_named(t).unwrap()))
    } else if has_prefix(t, "hover:"@) {
        match style_prop_named(t.skip(6)) {
            Some(p) => Some(AttributeKind::Style(p, StyleVariant::Hover)),
            None => None,
        }
    } else if has_prefix(t, "active:"@) {
        match style_prop_named(t.skip(7)) {
            Some(p) => Some(AttributeKind::Style(p, StyleVariant::Active)),
            None => None,
        }
    } else {
        match style_prop_named(t) {
            Some(p) => Some(AttributeKind::Style(p, StyleVariant::Base)),
            None => None,
        }
    }
}

/// Each style property is parsed back from its own name: names are distinct.
pub proof fn law_style_prop_name_roundtrip(p: StyleProp)
    ensures
        style_prop_named(style_prop_name(p)) == Some(p),
{
    match p {
        StyleProp::W => {
            reveal_strlit("w");
        },
        StyleProp::H => {
            reveal_strlit("h");
            reveal_strlit("w");
            assert("h"@[0] != "w"@[0]);
        },
        StyleProp::MinW => {
            reveal_strlit("minW");
            reveal_strlit("w");
            assert("minW"@.len() != "w"@.len());
            reveal_strlit("h");
            assert("minW"@.len() != "h"@.len());
        },
        StyleProp::MinH => {
            reveal_strlit("minH");
            reveal_strlit("w");
            assert("minH"@.len() != "w"@.len());
            reveal_strlit("h");
            assert("minH"@.len() != "h"@.len());
            reveal_strlit("minW");
            assert("minH"@[3] != "minW"@[3]);
        },
        StyleProp::P => {
            reveal_strlit("p");
            reveal_strlit("w");
            assert("p"@[0] != "w"@[0]);
            reveal_strlit("h");
            assert("p"@[0] != "h"@[0]);
            reveal_strlit("minW");
            assert("p"@.len() != "minW"@.len());
            reveal_strlit("minH");
            assert("p"@.len() != "minH"@.len());
        },
        StyleProp::Px => {
            reveal_strlit("px");
            reveal_strlit("w");
            assert("px"@.len() != "w"@.len());
            reveal_strlit("h");
            assert("px"@.len() != "h"@.len());
            reveal_strlit("minW");
            assert("px"@.len() != "minW"@.len());
            reveal_strlit("minH");
            assert("px"@.len() != "minH"@.len());
            reveal_strlit("p");
            assert("px"@.len() != "p"@.len());
        },
        StyleProp::Py => {
            reveal_strlit("py");
            reveal_strlit("w");
            assert("py"@.len() != "w"@.len());
            reveal_strlit("h");
            assert("py"@.len() != "h"@.len());
            reveal_strlit("minW");
            assert("py"@.len() != "minW"@.len());
            reveal_strlit("minH");
            assert("py"@.len() != "minH"@.len());
            reveal_strlit("p");
            assert("py"@.len() != "p"@.len());
            reveal_strlit("px");
            assert("py"@[1] != "px"@[1]);
        },
        StyleProp::Pt => {
            reveal_strlit("pt");
            reveal_strlit("w");
            assert("pt"@.len() != "w"@.len());
            reveal_strlit("h");
            assert("pt"@.len() != "h"@.len());
            reveal_strlit("minW");
            assert("pt"@.len() != "minW"@.len());
            reveal_strlit("minH");
            assert("pt"@.len() != "minH"@.len());
            reveal_strlit("p");
            assert("pt"@.len() != "p"@.len());
            reveal_strlit("px");
            assert("pt"@[1] != "px"@[1]);
            reveal_strlit("py");
            assert("pt"@[1] != "py"@[1]);
        },
        StyleProp::Pb => {
            reveal_strlit("pb");
            reveal_strlit("w");
            assert("pb"@.len() != "w"@.len());
            reveal_strlit("h");
            assert("pb"@.len() != "h"@.len());
            reveal_strlit("minW");
            assert("pb"@.len() != "minW"@.len());
            reveal_strlit("minH");
            assert("pb"@.len() != "minH"@.len());
            reveal_strlit("p");
            assert("pb"@.len() != "p"@.len());
            reveal_strlit("px");
            assert("pb"@[1] != "px"@[1]);
            reveal_strlit("py");
            assert("pb"@[1] != "py"@[1]);
            reveal_strlit("pt");
            assert("pb"@[1] != "pt"@[1]);
        },
        StyleProp::Pl => {
            reveal_strlit("pl");
            reveal_strlit("w");
            assert("pl"@.len() != "w"@.len());
            reveal_strlit("h");
            assert("pl"@.len() != "h"@.len());
            reveal_strlit("minW");
            assert("pl"@.len() != "minW"@.len());
            reveal_strlit("minH");
            assert("pl"@.len() != "minH"@.len());
            reveal_strlit("p");
            assert("pl"@.len() != "p"@.len());
            reveal_strlit("px");
            assert("pl"@[1] != "px"@[1]);
            reveal_strlit("py");
            assert("pl"@[1] != "py"@[1]);
            reveal_strlit("pt");
            assert("pl"@[1] != "pt"@[1]);
            reveal_strlit("pb");
            assert("pl"@[1] != "pb"@[1]);
        },
        StyleProp::Pr => {
            reveal_strlit("pr");
            reveal_strlit("w");
            assert("pr"@.len() != "w"@.len());
            reveal_strlit("h");
            assert("pr"@.len() != "h"@.len());
            reveal_strlit("minW");
            assert("pr"@.len() != "minW"@.len());
            reveal_strlit("minH");
            assert("pr"@.len() != "minH"@.len());
            reveal_strlit("p");
            assert("pr"@.len() != "p"@.len());
            reveal_strlit("px");
            assert("pr"@[1] != "px"@[1]);
            reveal_strlit("py");
            assert("pr"@[1] != "py"@[1]);
            reveal_strlit("pt");
            assert("pr"@[1] != "pt"@[1]);
            reveal_strlit("pb");
            assert("pr"@[1] != "pb"@[1]);
            reveal_strlit("pl");
            assert("pr"@[1] != "pl"@[1]);
        },
        StyleProp::M => {
            reveal_strlit("m");
            reveal_strlit("w");
            assert("m"@[0] != "w"@[0]);
            reveal_strlit("h");
            assert("m"@[0] != "h"@[0]);
            reveal_strlit("minW");
            assert("m"@.len() != "minW"@.len());
            reveal_strlit("minH");
            assert("m"@.len() != "minH"@.len());
            reveal_strlit("p");
            assert("m"@[0] != "p"@[0]);
            reveal_strlit("px");
            assert("m"@.len() != "px"@.len());
            reveal_strlit("py");
            assert("m"@.len() != "py"@.len());
            reveal_strlit("pt");
            assert("m"@.len() != "pt"@.len());
            reveal_strlit("pb");
            assert("m"@.len() != "pb"@.len());
            reveal_strlit("pl");
            assert("m"@.len() != "pl"@.len());
            reveal_strlit("pr");
            assert("m"@.len() != "pr"@.len());
        },
        StyleProp::Mx => {
            reveal_strlit("mx");
            reveal_strlit("w");
            assert("mx"@.len() != "w"@.len());
            reveal_strlit("h");
            assert("mx"@.len() != "h"@.len());
            reveal_strlit("minW");
            assert("mx"@.len() != "minW"@.len());
            reveal_strlit("minH");
            assert("mx"@.len() != "minH"@.len());
            reveal_strlit("p");
            assert("mx"@.len() != "p"@.len());
            reveal_strlit("px");
            assert("mx"@[0] != "px"@[0]);
            reveal_strlit("py");
            assert("mx"@[0] != "py"@[0]);
            reveal_strlit("pt");
            assert("mx"@[0] != "pt"@[0]);
            reveal_strlit("pb");
            assert("mx"@[0] != "pb"@[0]);
            reveal_strlit("pl");
            assert("mx"@[0] != "pl"@[0]);
            reveal_strlit("pr");
            assert("mx"@[0] != "pr"@[0]);
            reveal_strlit("m");
            assert("mx"@.len() != "m"@.len());
        },
        StyleProp::My => {
            reveal_strlit("my");
            reveal_strlit("w");
            assert("my"@.len() != "w"@.len());
            reveal_strlit("h");
            assert("my"@.len() != "h"@.len());
            reveal_strlit("minW");
            assert("my"@.len() != "minW"@.len());
            reveal_strlit("minH");
            assert("my"@.len() != "minH"@.len());
            reveal_strlit("p");
            assert("my"@.len() != "p"@.len());
            reveal_strlit("px");
            assert("my"@[0] != "px"@[0]);
            reveal_strlit("py");
            assert("my"@[0] != "py"@[0]);
            reveal_strlit("pt");
            assert("my"@[0] != "pt"@[0]);
            reveal_strlit("pb");
            assert("my"@[0] != "pb"@[0]);
            reveal_strlit("pl");
            assert("my"@[0] != "pl"@[0]);
            reveal_strlit("pr");
            assert("my"@[0] != "pr"@[0]);
            reveal_strlit("m");
            assert("my"@.len() != "m"@.len());
            reveal_strlit("mx");
            assert("my"@[1] != "mx"@[1]);
        },
        StyleProp::Mt => {
            reveal_strlit("mt");
            reveal_strlit("w");
            assert("mt"@.len() != "w"@.len());
            reveal_strlit("h");
            assert("mt"@.len() != "h"@.len());
            reveal_strlit("minW");
            assert("mt"@.len() != "minW"@.len());
            reveal_strlit("minH");
            assert("mt"@.len() != "minH"@.len());
            reveal_strlit("p");
            assert("mt"@.len() != "p"@.len());
            reveal_strlit("px");
            assert("mt"@[0] != "px"@[0]);
            reveal_strlit("py");
            assert("mt"@[0] != "py"@[0]);
            reveal_strlit("pt");
            assert("mt"@[0] != "pt"@[0]);
            reveal_strlit("pb");
            assert("mt"@[0] != "pb"@[0]);
            reveal_strlit("pl");
            assert("mt"@[0] != "pl"@[0]);
            reveal_strlit("pr");
            assert("mt"@[0] != "pr"@[0]);
            reveal_strlit("m");
            assert("mt"@.len() != "m"@.len());
            reveal_strlit("mx");
            assert("mt"@[1] != "mx"@[1]);
            reveal_strlit("my");
            assert("mt"@[1] != "my"@[1]);
        },
        StyleProp::Mb => {
            reveal_strlit("mb");
            reveal_strlit("w");
            assert("mb"@.len() != "w"@.len());
            reveal_strlit("h");
            assert("mb"@.len() != "h"@.len());
            reveal_strlit("minW");
            assert("mb"@.len() != "minW"@.len());
            reveal_strlit("minH");
            assert("mb"@.len() != "minH"@.len());
            reveal_strlit("p");
            assert("mb"@.len() != "p"@.len());
            reveal_strlit("px");
            assert("mb"@[0] != "px"@[0]);
            reveal_strlit("py");
            assert("mb"@[0] != "py"@[0]);
            reveal_strlit("pt");
            assert("mb"@[0] != "pt"@[0]);
            reveal_strlit("pb");
            assert("mb"@[0] != "pb"@[0]);
            reveal_strlit("pl");
            assert("mb"@[0] != "pl"@[0]);
            reveal_strlit("pr");
            assert("mb"@[0] != "pr"@[0]);
            reveal_strlit("m");
            assert("mb"@.len() != "m"@.len());
            reveal_strlit("mx");
            assert("mb"@[1] != "mx"@[1]);
            reveal_strlit("my");
            assert("mb"@[1] != "my"@[1]);
            reveal_strlit("mt");
            assert("mb"@[1] != "mt"@[1]);
        },
        StyleProp::Ml => {
            reveal_strlit("ml");
            reveal_strlit("w");
            assert("ml"@.len() != "w"@.len());
            reveal_strlit("h");
            assert("ml"@.len() != "h"@.len());
            reveal_strlit("minW");
            assert("ml"@.len() != "minW"@.len());
            reveal_strlit("minH");
            assert("ml"@.len() != "minH"@.len());
            reveal_strlit("p");
            assert("ml"@.len() != "p"@.len());
            reveal_strlit("px");
            assert("ml"@[0] != "px"@[0]);
            reveal_strlit("py");
            assert("ml"@[0] != "py"@[0]);
            reveal_strlit("pt");
            assert("ml"@[0] != "pt"@[0]);
            reveal_strlit("pb");
            assert("ml"@[0] != "pb"@[0]);
            reveal_strlit("pl");
            assert("ml"@[0] != "pl"@[0]);
            reveal_strlit("pr");
            assert("ml"@[0] != "pr"@[0]);
            reveal_strlit("m");
            assert("ml"@.len() != "m"@.len());
            reveal_strlit("mx");
            assert("ml"@[1] != "mx"@[1]);
            reveal_strlit("my");
            assert("ml"@[1] != "my"@[1]);
            reveal_strlit("mt");
            assert("ml"@[1] != "mt"@[1]);
            reveal_strlit("mb");
            assert("ml"@[1] != "mb"@[1]);
        },
        StyleProp::Mr => {
            reveal_strlit("mr");
            reveal_strlit("w");
            assert("mr"@.len() != "w"@.len());
            reveal_strlit("h");
            assert("mr"@.len() != "h"@.len());
            reveal_strlit("minW");
            assert("mr"@.len() != "minW"@.len());
            reveal_strlit("minH");
            assert("mr"@.len() != "minH"@.len());
            reveal_strlit("p");
            assert("mr"@.len() != "p"@.len());
            reveal_strlit("px");
            assert("mr"@[0] != "px"@[0]);
            reveal_strlit("py");
            assert("mr"@[0] != "py"@[0]);
            reveal_strlit("pt");
            assert("mr"@[0] != "pt"@[0]);
            reveal_strlit("pb");
            assert("mr"@[0] != "pb"@[0]);
            reveal_strlit("pl");
            assert("mr"@[0] != "pl"@[0]);
            reveal_strlit("pr");
            assert("mr"@[0] != "pr"@[0]);
            reveal_strlit("m");
            assert("mr"@.len() != "m"@.len());
            reveal_strlit("mx");
            assert("mr"@[1] != "mx"@[1]);
            reveal_strlit("my");
            assert("mr"@[1] != "my"@[1]);
            reveal_strlit("mt");
            assert("mr"@[1] != "mt"@[1]);
            reveal_strlit("mb");
            assert("mr"@[1] != "mb"@[1]);
            reveal_strlit("ml");
            assert("mr"@[1] != "ml"@[1]);
        },
        StyleProp::Flex => {
            reveal_strlit("flex");
            reveal_strlit("w");
            assert("flex"@.len() != "w"@.len());
            reveal_strlit("h");
            assert("flex"@.len() != "h"@.len());
            reveal_strlit("minW");
            assert("flex"@[0] != "minW"@[0]);
            reveal_strlit("minH");
            assert("flex"@[0] != "minH"@[0]);
            reveal_strlit("p");
            assert("flex"@.len() != "p"@.len());
            reveal_strlit("px");
            assert("flex"@.len() != "px"@.len());
            reveal_strlit("py");
            assert("flex"@.len() != "py"@.len());
            reveal_strlit("pt");
            assert("flex"@.len() != "pt"@.len());
            reveal_strlit("pb");
            assert("flex"@.len() != "pb"@.len());
            reveal_strlit("pl");
            assert("flex"@.len() != "pl"@.len());
            reveal_strlit("pr");
            assert("flex"@.len() != "pr"@.len());
            reveal_strlit("m");
            assert("flex"@.len() != "m"@.len());
            reveal_strlit("mx");
            assert("flex"@.len() != "mx"@.len());
            reveal_strlit("my");
            assert("flex"@.len() != "my"@.len());
            reveal_strlit("mt");
            assert("flex"@.len() != "mt"@.len());
            reveal_strlit("mb");
            assert("flex"@.len() != "mb"@.len());
            reveal_strlit("ml");
            assert("flex"@.len() != "ml"@.len());
            reveal_strlit("mr");
            assert("flex"@.len() != "mr"@.len());
        },
        StyleProp::FlexDir => {
            reveal_strlit("flexDir");
            reveal_strlit("w");
            assert("flexDir"@.len() != "w"@.len());
            reveal_strlit("h");
            assert("flexDir"@.len() != "h"@.len());
            reveal_strlit("minW");
            assert("flexDir"@.len() != "minW"@.len());
            reveal_strlit("minH");
            assert("flexDir"@.len() != "minH"@.len());
            reveal_strlit("p");
            assert("flexDir"@.len() != "p"@.len());
            reveal_strlit("px");
            assert("flexDir"@.len() != "px"@.len());
            reveal_strlit("py");
            assert("flexDir"@.len() != "py"@.len());
            reveal_strlit("pt");
            assert("flexDir"@.len() != "pt"@.len());
            reveal_strlit("pb");
            assert("flexDir"@.len() != "pb"@.len());
            reveal_strlit("pl");
            assert("flexDir"@.len() != "pl"@.len());
            reveal_strlit("pr");
            assert("flexDir"@.len() != "pr"@.len());
            reveal_strlit("m");
            assert("flexDir"@.len() != "m"@.len());
            reveal_strlit("mx");
            assert("flexDir"@.len() != "mx"@.len());
            reveal_strlit("my");
            assert("flexDir"@.len() != "my"@.len());
            reveal_strlit("mt");
            assert("flexDir"@.len() != "mt"@.len());
            reveal_strlit("mb");
            assert("flexDir"@.len() != "mb"@.len());
            reveal_strlit("ml");
            assert("flexDir"@.len() != "ml"@.len());
            reveal_strlit("mr");
            assert("flexDir"@.len() != "mr"@.len());
            reveal_strlit("flex");
            assert("flexDir"@.len() != "flex"@.len());
        },
        StyleProp::FlexGrow => {
            reveal_strlit("flexGrow");
            reveal_strlit("w");
            assert("flexGrow"@.len() != "w"@.len());
            reveal_strlit("h");
            assert("flexGrow"@.len() != "h"@.len());
            reveal_strlit("minW");
            assert("flexGrow"@.len() != "minW"@.len());
            reveal_strlit("minH");
            assert("flexGrow"@.len() != "minH"@.len());
            reveal_strlit("p");
            assert("flexGrow"@.len() != "p"@.len());
            reveal_strlit("px");
            assert("flexGrow"@.len() != "px"@.len());
            reveal_strlit("py");
            assert("flexGrow"@.len() != "py"@.len());
            reveal_strlit("pt");
            assert("flexGrow"@.len() != "pt"@.len());
            reveal_strlit("pb");
            assert("flexGrow"@.len() != "pb"@.len());
            reveal_strlit("pl");
            assert("flexGrow"@.len() != "pl"@.len());
            reveal_strlit("pr");
            assert("flexGrow"@.len() != "pr"@.len());
            reveal_strlit("m");
            assert("flexGrow"@.len() != "m"@.len());
            reveal_strlit("mx");
            assert("flexGrow"@.len() != "mx"@.len());
            reveal_strlit("my");
            assert("flexGrow"@.len() != "my"@.len());
            reveal_strlit("mt");
            assert("flexGrow"@.len() != "mt"@.len());
            reveal_strlit("mb");
            assert("flexGrow"@.len() != "mb"@.len());
            reveal_strlit("ml");
            assert("flexGrow"@.len() != "ml"@.len());
            reveal_strlit("mr");
            assert("flexGrow"@.len() != "mr"@.len());
            reveal_strlit("flex");
            assert("flexGrow"@.len() != "flex"@.len());
            reveal_strlit("flexDir");
            assert("flexGrow"@.len() != "flexDir"@.len());
        },
        StyleProp::FlexShrink => {
            reveal_strlit("flexShrink");
            reveal_strlit("w");
            assert("flexShrink"@.len() != "w"@.len());
            reveal_strlit("h");
            assert("flexShrink"@.len() != "h"@.len());
            reveal_strlit("minW");
            assert("flexShrink"@.len() != "minW"@.len());
            reveal_strlit("minH");
            assert("flexShrink"@.len() != "minH"@.len());
            reveal_strlit("p");
            assert("flexShrink"@.len() != "p"@.len());
            reveal_strlit("px");
            assert("flexShrink"@.len() != "px"@.len());
            reveal_strlit("py");
            assert("flexShrink"@.len() != "py"@.len());
            reveal_strlit("pt");
            assert("flexShrink"@.len() != "pt"@.len());
            reveal_strlit("pb");
            assert("flexShrink"@.len() != "pb"@.len());
            reveal_strlit("pl");
            assert("flexShrink"@.len() != "pl"@.len());
            reveal_strlit("pr");
            assert("flexShrink"@.len() != "pr"@.len());
            reveal_strlit("m");
            assert("flexShrink"@.len() != "m"@.len());
            reveal_strlit("mx");
            assert("flexShrink"@.len() != "mx"@.len());
            reveal_strlit("my");
            assert("flexShrink"@.len() != "my"@.len());
            reveal_strlit("mt");
            assert("flexShrink"@.len() != "mt"@.len());
            reveal_strlit("mb");
            assert("flexShrink"@.len() != "mb"@.len());
            reveal_strlit("ml");
            assert("flexShrink"@.len() != "ml"@.len());
            reveal_strlit("mr");
            assert("flexShrink"@.len() != "mr"@.len());
            reveal_strlit("flex");
            assert("flexShrink"@.len() != "flex"@.len());
            reveal_strlit("flexDir");
            assert("flexShrink"@.len() != "flexDir"@.len());
            reveal_strlit("flexGrow");
            assert("flexShrink"@.len() != "flexGrow"@.len());
        },
        StyleProp::Items => {
            reveal_strlit("items");
            reveal_strlit("w");
            assert("items"@.len() != "w"@.len());
            reveal_strlit("h");
            assert("items"@.len() != "h"@.len());
            reveal_strlit("minW");
            assert("items"@.len() != "minW"@.len());
            reveal_strlit("minH");
            assert("items"@.len() != "minH"@.len());
            reveal_strlit("p");
            assert("items"@.len() != "p"@.len());
            reveal_strlit("px");
            assert("items"@.len() != "px"@.len());
            reveal_strlit("py");
            assert("items"@.len() != "py"@.len());
            reveal_strlit("pt");
            assert("items"@.len() != "pt"@.len());
            reveal_strlit("pb");
            assert("items"@.len() != "pb"@.len());
            reveal_strlit("pl");
            assert("items"@.len() != "pl"@.len());
            reveal_strlit("pr");
            assert("items"@.len() != "pr"@.len());
            reveal_strlit("m");
            assert("items"@.len() != "m"@.len());
            reveal_strlit("mx");
            assert("items"@.len() != "mx"@.len());
            reveal_strlit("my");
            assert("items"@.len() != "my"@.len());
            reveal_strlit("mt");
            assert("items"@.len() != "mt"@.len());
            reveal_strlit("mb");
            assert("items"@.len() != "mb"@.len());
            reveal_strlit("ml");
            assert("items"@.len() != "ml"@.len());
            reveal_strlit("mr");
            assert("items"@.len() != "mr"@.len());
            reveal_strlit("flex");
            assert("items"@.len() != "flex"@.len());
            reveal_strlit("flexDir");
            assert("items"@.len() != "flexDir"@.len());
            reveal_strlit("flexGrow");
            assert("items"@.len() != "flexGrow"@.len());
            reveal_strlit("flexShrink");
            assert("items"@.len() != "flexShrink"@.len());
        },
        StyleProp::Justify => {
            reveal_strlit("justify");
            reveal_strlit("w");
            assert("justify"@.len() != "w"@.len());
            reveal_strlit("h");
            assert("justify"@.len() != "h"@.len());
            reveal_strlit("minW");
            assert("justify"@.len() != "minW"@.len());
            reveal_strlit("minH");
            assert("justify"@.len() != "minH"@.len());
            reveal_strlit("p");
            assert("justify"@.len() != "p"@.len());
            reveal_strlit("px");
            assert("justify"@.len() != "px"@.len());
            reveal_strlit("py");
            assert("justify"@.len() != "py"@.len());
            reveal_strlit("pt");
            assert("justify"@.len() != "pt"@.len());
            reveal_strlit("pb");
            assert("justify"@.len() != "pb"@.len());
            reveal_strlit("pl");
            assert("justify"@.len() != "pl"@.len());
            reveal_strlit("pr");
            assert("justify"@.len() != "pr"@.len());
            reveal_strlit("m");
            assert("justify"@.len() != "m"@.len());
            reveal_strlit("mx");
            assert("justify"@.len() != "mx"@.len());
            reveal_strlit("my");
            assert("justify"@.len() != "my"@.len());
            reveal_strlit("mt");
            assert("justify"@.len() != "mt"@.len());
            reveal_strlit("mb");
            assert("justify"@.len() != "mb"@.len());
            reveal_strlit("ml");
            assert("justify"@.len() != "ml"@.len());
            reveal_strlit("mr");
            assert("justify"@.len() != "mr"@.len());
            reveal_strlit("flex");
            assert("justify"@.len() != "flex"@.len());
            reveal_strlit("flexDir");
            assert("justify"@[0] != "flexDir"@[0]);
            reveal_strlit("flexGrow");
            assert("justify"@.len() != "flexGrow"@.len());
            reveal_strlit("flexShrink");
            assert("justify"@.len() != "flexShrink"@.len());
            reveal_strlit("items");
            assert("justify"@.len() != "items"@.len());
        },
        StyleProp::Gap => {
            reveal_strlit("gap");
            reveal_strlit("w");
            assert("gap"@.len() != "w"@.len());
            reveal_strlit("h");
            assert("gap"@.len() != "h"@.len());
            reveal_strlit("minW");
            assert("gap"@.len() != "minW"@.len());
            reveal_strlit("minH");
            assert("gap"@.len() != "minH"@.len());
            reveal_strlit("p");
            assert("gap"@.len() != "p"@.len());
            reveal_strlit("px");
            assert("gap"@.len() != "px"@.len());
            reveal_strlit("py");
            assert("gap"@.len() != "py"@.len());
            reveal_strlit("pt");
            assert("gap"@.len() != "pt"@.len());
            reveal_strlit("pb");
            assert("gap"@.len() != "pb"@.len());
            reveal_strlit("pl");
            assert("gap"@.len() != "pl"@.len());
            reveal_strlit("pr");
            assert("gap"@.len() != "pr"@.len());
            reveal_strlit("m");
            assert("gap"@.len() != "m"@.len());
            reveal_strlit("mx");
            assert("gap"@.len() != "mx"@.len());
            reveal_strlit("my");
            assert("gap"@.len() != "my"@.len());
            reveal_strlit("mt");
            assert("gap"@.len() != "mt"@.len());
            reveal_strlit("mb");
            assert("gap"@.len() != "mb"@.len());
            reveal_strlit("ml");
            assert("gap"@.len() != "ml"@.len());
            reveal_strlit("mr");
            assert("gap"@.len() != "mr"@.len());
            reveal_strlit("flex");
            assert("gap"@.len() != "flex"@.len());
            reveal_strlit("flexDir");
            assert("gap"@.len() != "flexDir"@.len());
            reveal_strlit("flexGrow");
            assert("gap"@.len() != "flexGrow"@.len());
            reveal_strlit("flexShrink");
            assert("gap"@.len() != "flexShrink"@.len());
            reveal_strlit("items");
            assert("gap"@.len() != "items"@.len());
            reveal_strlit("justify");
            assert("gap"@.len() != "justify"@.len());
        },
        StyleProp::Bg => {
            reveal_strlit("bg");
            reveal_strlit("w");
            assert("bg"@.len() != "w"@.len());
            reveal_strlit("h");
            assert("bg"@.len() != "h"@.len());
            reveal_strlit("minW");
            assert("bg"@.len() != "minW"@.len());
            reveal_strlit("minH");
            assert("bg"@.len() != "minH"@.len());
            reveal_strlit("p");
            assert("bg"@.len() != "p"@.len());
            reveal_strlit("px");
            assert("bg"@[0] != "px"@[0]);
            reveal_strlit("py");
            assert("bg"@[0] != "py"@[0]);
            reveal_strlit("pt");
            assert("bg"@[0] != "pt"@[0]);
            reveal_strlit("pb");
            assert("bg"@[0] != "pb"@[0]);
            reveal_strlit("pl");
            assert("bg"@[0] != "pl"@[0]);
            reveal_strlit("pr");
            assert("bg"@[0] != "pr"@[0]);
            reveal_strlit("m");
            assert("bg"@.len() != "m"@.len());
            reveal_strlit("mx");
            assert("bg"@[0] != "mx"@[0]);
            reveal_strlit("my");
            assert("bg"@[0] != "my"@[0]);
            reveal_strlit("mt");
            assert("bg"@[0] != "mt"@[0]);
            reveal_strlit("mb");
            assert("bg"@[0] != "mb"@[0]);
            reveal_strlit("ml");
            assert("bg"@[0] != "ml"@[0]);
            reveal_strlit("mr");
            assert("bg"@[0] != "mr"@[0]);
            reveal_strlit("flex");
            assert("bg"@.len() != "flex"@.len());
            reveal_strlit("flexDir");
            assert("bg"@.len() != "flexDir"@.len());
            reveal_strlit("flexGrow");
            assert("bg"@.len() != "flexGrow"@.len());
            reveal_strlit("flexShrink");
            assert("bg"@.len() != "flexShrink"@.len());
            reveal_strlit("items");
            assert("bg"@.len() != "items"@.len());
            reveal_strlit("justify");
            assert("bg"@.len() != "justify"@.len());
            reveal_strlit("gap");
            assert("bg"@.len() != "gap"@.len());
        },
        StyleProp::Color => {
            reveal_strlit("color");
            reveal_strlit("w");
            assert("color"@.len() != "w"@.len());
            reveal_strlit("h");
            assert("color"@.len() != "h"@.len());
            reveal_strlit("minW");
            assert("color"@.len() != "minW"@.len());
            reveal_strlit("minH");
            assert("color"@.len() != "minH"@.len());
            reveal_strlit("p");
            assert("color"@.len() != "p"@.len());
            reveal_strlit("px");
            assert("color"@.len() != "px"@.len());
            reveal_strlit("py");
            assert("color"@.len() != "py"@.len());
            reveal_strlit("pt");
            assert("color"@.len() != "pt"@.len());
            reveal_strlit("pb");
            assert("color"@.len() != "pb"@.len());
            reveal_strlit("pl");
            assert("color"@.len() != "pl"@.len());
            reveal_strlit("pr");
            assert("color"@.len() != "pr"@.len());
            reveal_strlit("m");
            assert("color"@.len() != "m"@.len());
            reveal_strlit("mx");
            assert("color"@.len() != "mx"@.len());
            reveal_strlit("my");
            assert("color"@.len() != "my"@.len());
            reveal_strlit("mt");
            assert("color"@.len() != "mt"@.len());
            reveal_strlit("mb");
            assert("color"@.len() != "mb"@.len());
            reveal_strlit("ml");
            assert("color"@.len() != "ml"@.len());
            reveal_strlit("mr");
            assert("color"@.len() != "mr"@.len());
            reveal_strlit("flex");
            assert("color"@.len() != "flex"@.len());
            reveal_strlit("flexDir");
            assert("color"@.len() != "flexDir"@.len());
            reveal_strlit("flexGrow");
            assert("color"@.len() != "flexGrow"@.len());
            reveal_strlit("flexShrink");
            assert("color"@.len() != "flexShrink"@.len());
            reveal_strlit("items");
            assert("color"@[0] != "items"@[0]);
            reveal_strlit("justify");
            assert("color"@.len() != "justify"@.len());
            reveal_strlit("gap");
            assert("color"@.len() != "gap"@.len());
            reveal_strlit("bg");
            assert("color"@.len() != "bg"@.len());
        },
        StyleProp::FontSize => {
            reveal_strlit("fontSize");
            reveal_strlit("w");
            assert("fontSize"@.len() != "w"@.len());
            reveal_strlit("h");
            assert("fontSize"@.len() != "h"@.len());
            reveal_strlit("minW");
            assert("fontSize"@.len() != "minW"@.len());
            reveal_strlit("minH");
            assert("fontSize"@.len() != "minH"@.len());
            reveal_strlit("p");
            assert("fontSize"@.len() != "p"@.len());
            reveal_strlit("px");
            assert("fontSize"@.len() != "px"@.len());
            reveal_strlit("py");
            assert("fontSize"@.len() != "py"@.len());
            reveal_strlit("pt");
            assert("fontSize"@.len() != "pt"@.len());
            reveal_strlit("pb");
            assert("fontSize"@.len() != "pb"@.len());
            reveal_strlit("pl");
            assert("fontSize"@.len() != "pl"@.len());
            reveal_strlit("pr");
            assert("fontSize"@.len() != "pr"@.len());
            reveal_strlit("m");
            assert("fontSize"@.len() != "m"@.len());
            reveal_strlit("mx");
            assert("fontSize"@.len() != "mx"@.len());
            reveal_strlit("my");
            assert("fontSize"@.len() != "my"@.len());
            reveal_strlit("mt");
            assert("fontSize"@.len() != "mt"@.len());
            reveal_strlit("mb");
            assert("fontSize"@.len() != "mb"@.len());
            reveal_strlit("ml");
            assert("fontSize"@.len() != "ml"@.len());
            reveal_strlit("mr");
            assert("fontSize"@.len() != "mr"@.len());
            reveal_strlit("flex");
            assert("fontSize"@.len() != "flex"@.len());
            reveal_strlit("flexDir");
            assert("fontSize"@.len() != "flexDir"@.len());
            reveal_strlit("flexGrow");
            assert("fontSize"@[1] != "flexGrow"@[1]);
            reveal_strlit("flexShrink");
            assert("fontSize"@.len() != "flexShrink"@.len());
            reveal_strlit("items");
            assert("fontSize"@.len() != "items"@.len());
            reveal_strlit("justify");
            assert("fontSize"@.len() != "justify"@.len());
            reveal_strlit("gap");
            assert("fontSize"@.len() != "gap"@.len());
            reveal_strlit("bg");
            assert("fontSize"@.len() != "bg"@.len());
            reveal_strlit("color");
            assert("fontSize"@.len() != "color"@.len());
        },
        StyleProp::FontWeight => {
            reveal_strlit("fontWeight");
            reveal_strlit("w");
            assert("fontWeight"@.len() != "w"@.len());
            reveal_strlit("h");
            assert("fontWeight"@.len() != "h"@.len());
            reveal_strlit("minW");
            assert("fontWeight"@.len() != "minW"@.len());
            reveal_strlit("minH");
            assert("fontWeight"@.len() != "minH"@.len());
            reveal_strlit("p");
            assert("fontWeight"@.len() != "p"@.len());
            reveal_strlit("px");
            assert("fontWeight"@.len() != "px"@.len());
            reveal_strlit("py");
            assert("fontWeight"@.len() != "py"@.len());
            reveal_strlit("pt");
            assert("fontWeight"@.len() != "pt"@.len());
            reveal_strlit("pb");
            assert("fontWeight"@.len() != "pb"@.len());
            reveal_strlit("pl");
            assert("fontWeight"@.len() != "pl"@.len());
            reveal_strlit("pr");
            assert("fontWeight"@.len() != "pr"@.len());
            reveal_strlit("m");
            assert("fontWeight"@.len() != "m"@.len());
            reveal_strlit("mx");
            assert("fontWeight"@.len() != "mx"@.len());
            reveal_strlit("my");
            assert("fontWeight"@.len() != "my"@.len());
            reveal_strlit("mt");
            assert("fontWeight"@.len() != "mt"@.len());
            reveal_strlit("mb");
            assert("fontWeight"@.len() != "mb"@.len());
            reveal_strlit("ml");
            assert("fontWeight"@.len() != "ml"@.len());
            reveal_strlit("mr");
            assert("fontWeight"@.len() != "mr"@.len());
            reveal_strlit("flex");
            assert("fontWeight"@.len() != "flex"@.len());
            reveal_strlit("flexDir");
            assert("fontWeight"@.len() != "flexDir"@.len());
            reveal_strlit("flexGrow");
            assert("fontWeight"@.len() != "flexGrow"@.len());
            reveal_strlit("flexShrink");
            assert("fontWeight"@[1] != "flexShrink"@[1]);
            reveal_strlit("items");
            assert("fontWeight"@.len() != "items"@.len());
            reveal_strlit("justify");
            assert("fontWeight"@.len() != "justify"@.len());
            reveal_strlit("gap");
            assert("fontWeight"@.len() != "gap"@.len());
            reveal_strlit("bg");
            assert("fontWeight"@.len() != "bg"@.len());
            reveal_strlit("color");
            assert("fontWeight"@.len() != "color"@.len());
            reveal_strlit("fontSize");
            assert("fontWeight"@.len() != "fontSize"@.len());
        },
        StyleProp::Rounded => {
            reveal_strlit("rounded");
            reveal_strlit("w");
            assert("rounded"@.len() != "w"@.len());
            reveal_strlit("h");
            assert("rounded"@.len() != "h"@.len());
            reveal_strlit("minW");
            assert("rounded"@.len() != "minW"@.len());
            reveal_strlit("minH");
            assert("rounded"@.len() != "minH"@.len());
            reveal_strlit("p");
            assert("rounded"@.len() != "p"@.len());
            reveal_strlit("px");
            assert("rounded"@.len() != "px"@.len());
            reveal_strlit("py");
            assert("rounded"@.len() != "py"@.len());
            reveal_strlit("pt");
            assert("rounded"@.len() != "pt"@.len());
            reveal_strlit("pb");
            assert("rounded"@.len() != "pb"@.len());
            reveal_strlit("pl");
            assert("rounded"@.len() != "pl"@.len());
            reveal_strlit("pr");
            assert("rounded"@.len() != "pr"@.len());
            reveal_strlit("m");
            assert("rounded"@.len() != "m"@.len());
            reveal_strlit("mx");
            assert("rounded"@.len() != "mx"@.len());
            reveal_strlit("my");
            assert("rounded"@.len() != "my"@.len());
            reveal_strlit("mt");
            assert("rounded"@.len() != "mt"@.len());
            reveal_strlit("mb");
            assert("rounded"@.len() != "mb"@.len());
            reveal_strlit("ml");
            assert("rounded"@.len() != "ml"@.len());
            reveal_strlit("mr");
            assert("rounded"@.len() != "mr"@.len());
            reveal_strlit("flex");
            assert("rounded"@.len() != "flex"@.len());
            reveal_strlit("flexDir");
            assert("rounded"@[0] != "flexDir"@[0]);
            reveal_strlit("flexGrow");
            assert("rounded"@.len() != "flexGrow"@.len());
            reveal_strlit("flexShrink");
            assert("rounded"@.len() != "flexShrink"@.len());
            reveal_strlit("items");
            assert("rounded"@.len() != "items"@.len());
            reveal_strlit("justify");
            assert("rounded"@[0] != "justify"@[0]);
            reveal_strlit("gap");
            assert("rounded"@.len() != "gap"@.len());
            reveal_strlit("bg");
            assert("rounded"@.len() != "bg"@.len());
            reveal_strlit("color");
            assert("rounded"@.len() != "color"@.len());
            reveal_strlit("fontSize");
            assert("rounded"@.len() != "fontSize"@.len());
            reveal_strlit("fontWeight");
            assert("rounded"@.len() != "fontWeight"@.len());
        },
        StyleProp::RoundedTL => {
            reveal_strlit("roundedTL");
            reveal_strlit("w");
            assert("roundedTL"@.len() != "w"@.len());
            reveal_strlit("h");
            assert("roundedTL"@.len() != "h"@.len());
            reveal_strlit("minW");
            assert("roundedTL"@.len() != "minW"@.len());
            reveal_strlit("minH");
            assert("roundedTL"@.len() != "minH"@.len());
            reveal_strlit("p");
            assert("roundedTL"@.len() != "p"@.len());
            reveal_strlit("px");
            assert("roundedTL"@.len() != "px"@.len());
            reveal_strlit("py");
            assert("roundedTL"@.len() != "py"@.len());
            reveal_strlit("pt");
            assert("roundedTL"@.len() != "pt"@.len());
            reveal_strlit("pb");
            assert("roundedTL"@.len() != "pb"@.len());
            reveal_strlit("pl");
            assert("roundedTL"@.len() != "pl"@.len());
            reveal_strlit("pr");
            assert("roundedTL"@.len() != "pr"@.len());
            reveal_strlit("m");
            assert("roundedTL"@.len() != "m"@.len());
            reveal_strlit("mx");
            assert("roundedTL"@.len() != "mx"@.len());
            reveal_strlit("my");
            assert("roundedTL"@.len() != "my"@.len());
            reveal_strlit("mt");
            assert("roundedTL"@.len() != "mt"@.len());
            reveal_strlit("mb");
            assert("roundedTL"@.len() != "mb"@.len());
            reveal_strlit("ml");
            assert("roundedTL"@.len() != "ml"@.len());
            reveal_strlit("mr");
            assert("roundedTL"@.len() != "mr"@.len());
            reveal_strlit("flex");
            assert("roundedTL"@.len() != "flex"@.len());
            reveal_strlit("flexDir");
            assert("roundedTL"@.len() != "flexDir"@.len());
            reveal_strlit("flexGrow");
            assert("roundedTL"@.len() != "flexGrow"@.len());
            reveal_strlit("flexShrink");
            assert("roundedTL"@.len() != "flexShrink"@.len());
            reveal_strlit("items");
            assert("roundedTL"@.len() != "items"@.len());
            reveal_strlit("justify");
            assert("roundedTL"@.len() != "justify"@.len());
            reveal_strlit("gap");
            assert("roundedTL"@.len() != "gap"@.len());
            reveal_strlit("bg");
            assert("roundedTL"@.len() != "bg"@.len());
            reveal_strlit("color");
            assert("roundedTL"@.len() != "color"@.len());
            reveal_strlit("fontSize");
            assert("roundedTL"@.len() != "fontSize"@.len());
            reveal_strlit("fontWeight");
            assert("roundedTL"@.len() != "fontWeight"@.len());
            reveal_strlit("rounded");
            assert("roundedTL"@.len() != "rounded"@.len());
        },
        StyleProp::RoundedTR => {
            reveal_strlit("roundedTR");
            reveal_strlit("w");
            assert("roundedTR"@.len() != "w"@.len());
            reveal_strlit("h");
            assert("roundedTR"@.len() != "h"@.len());
            reveal_strlit("minW");
            assert("roundedTR"@.len() != "minW"@.len());
            reveal_strlit("minH");
            assert("roundedTR"@.len() != "minH"@.len());
            reveal_strlit("p");
            assert("roundedTR"@.len() != "p"@.len());
            reveal_strlit("px");
            assert("roundedTR"@.len() != "px"@.len());
            reveal_strlit("py");
            assert("roundedTR"@.len() != "py"@.len());
            reveal_strlit("pt");
            assert("roundedTR"@.len() != "pt"@.len());
            reveal_strlit("pb");
            assert("roundedTR"@.len() != "pb"@.len());
            reveal_strlit("pl");
            assert("roundedTR"@.len() != "pl"@.len());
            reveal_strlit("pr");
            assert("roundedTR"@.len() != "pr"@.len());
            reveal_strlit("m");
            assert("roundedTR"@.len() != "m"@.len());
            reveal_strlit("mx");
            assert("roundedTR"@.len() != "mx"@.len());
            reveal_strlit("my");
            assert("roundedTR"@.len() != "my"@.len());
            reveal_strlit("mt");
            assert("roundedTR"@.len() != "mt"@.len());
            reveal_strlit("mb");
            assert("roundedTR"@.len() != "mb"@.len());
            reveal_strlit("ml");
            assert("roundedTR"@.len() != "ml"@.len());
            reveal_strlit("mr");
            assert("roundedTR"@.len() != "mr"@.len());
            reveal_strlit("flex");
            assert("roundedTR"@.len() != "flex"@.len());
            reveal_strlit("flexDir");
            assert("roundedTR"@.len() != "flexDir"@.len());
            reveal_strlit("flexGrow");
            assert("roundedTR"@.len() != "flexGrow"@.len());
            reveal_strlit("flexShrink");
            assert("roundedTR"@.len() != "flexShrink"@.len());
            reveal_strlit("items");
            assert("roundedTR"@.len() != "items"@.len());
            reveal_strlit("justify");
            assert("roundedTR"@.len() != "justify"@.len());
            reveal_strlit("gap");
            assert("roundedTR"@.len() != "gap"@.len());
            reveal_strlit("bg");
            assert("roundedTR"@.len() != "bg"@.len());
            reveal_strlit("color");
            assert("roundedTR"@.len() != "color"@.len());
            reveal_strlit("fontSize");
            assert("roundedTR"@.len() != "fontSize"@.len());
            reveal_strlit("fontWeight");
            assert("roundedTR"@.len() != "fontWeight"@.len());
            reveal_strlit("rounded");
            assert("roundedTR"@.len() != "rounded"@.len());
            reveal_strlit("roundedTL");
            assert("roundedTR"@[8] != "roundedTL"@[8]);
        },
        StyleProp::RoundedBR => {
            reveal_strlit("roundedBR");
            reveal_strlit("w");
            assert("roundedBR"@.len() != "w"@.len());
            reveal_strlit("h");
            assert("roundedBR"@.len() != "h"@.len());
            reveal_strlit("minW");
            assert("roundedBR"@.len() != "minW"@.len());
            reveal_strlit("minH");
            assert("roundedBR"@.len() != "minH"@.len());
            reveal_strlit("p");
            assert("roundedBR"@.len() != "p"@.len());
            reveal_strlit("px");
            assert("roundedBR"@.len() != "px"@.len());
            reveal_strlit("py");
            assert("roundedBR"@.len() != "py"@.len());
            reveal_strlit("pt");
            assert("roundedBR"@.len() != "pt"@.len());
            reveal_strlit("pb");
            assert("roundedBR"@.len() != "pb"@.len());
            reveal_strlit("pl");
            assert("roundedBR"@.len() != "pl"@.len());
            reveal_strlit("pr");
            assert("roundedBR"@.len() != "pr"@.len());
            reveal_strlit("m");
            assert("roundedBR"@.len() != "m"@.len());
            reveal_strlit("mx");
            assert("roundedBR"@.len() != "mx"@.len());
            reveal_strlit("my");
            assert("roundedBR"@.len() != "my"@.len());
            reveal_strlit("mt");
            assert("roundedBR"@.len() != "mt"@.len());
            reveal_strlit("mb");
            assert("roundedBR"@.len() != "mb"@.len());
            reveal_strlit("ml");
            assert("roundedBR"@.len() != "ml"@.len());
            reveal_strlit("mr");
            assert("roundedBR"@.len() != "mr"@.len());
            reveal_strlit("flex");
            assert("roundedBR"@.len() != "flex"@.len());
            reveal_strlit("flexDir");
            assert("roundedBR"@.len() != "flexDir"@.len());
            reveal_strlit("flexGrow");
            assert("roundedBR"@.len() != "flexGrow"@.len());
            reveal_strlit("flexShrink");
            assert("roundedBR"@.len() != "flexShrink"@.len());
            reveal_strlit("items");
            assert("roundedBR"@.len() != "items"@.len());
            reveal_strlit("justify");
            assert("roundedBR"@.len() != "justify"@.len());
            reveal_strlit("gap");
            assert("roundedBR"@.len() != "gap"@.len());
            reveal_strlit("bg");
            assert("roundedBR"@.len() != "bg"@.len());
            reveal_strlit("color");
            assert("roundedBR"@.len() != "color"@.len());
            reveal_strlit("fontSize");
            assert("roundedBR"@.len() != "fontSize"@.len());
            reveal_strlit("fontWeight");
            assert("roundedBR"@.len() != "fontWeight"@.len());
            reveal_strlit("rounded");
            assert("roundedBR"@.len() != "rounded"@.len());
            reveal_strlit("roundedTL");
            assert("roundedBR"@[7] != "roundedTL"@[7]);
            reveal_strlit("roundedTR");
            assert("roundedBR"@[7] != "roundedTR"@[7]);
        },
        StyleProp::RoundedBL => {
            reveal_strlit("roundedBL");
            reveal_strlit("w");
            assert("roundedBL"@.len() != "w"@.len());
            reveal_strlit("h");
            assert("roundedBL"@.len() != "h"@.len());
            reveal_strlit("minW");
            assert("roundedBL"@.len() != "minW"@.len());
            reveal_strlit("minH");
            assert("roundedBL"@.len() != "minH"@.len());
            reveal_strlit("p");
            assert("roundedBL"@.len() != "p"@.len());
            reveal_strlit("px");
            assert("roundedBL"@.len() != "px"@.len());
            reveal_strlit("py");
            assert("roundedBL"@.len() != "py"@.len());
            reveal_strlit("pt");
            assert("roundedBL"@.len() != "pt"@.len());
            reveal_strlit("pb");
            assert("roundedBL"@.len() != "pb"@.len());
            reveal_strlit("pl");
            assert("roundedBL"@.len() != "pl"@.len());
            reveal_strlit("pr");
            assert("roundedBL"@.len() != "pr"@.len());
            reveal_strlit("m");
            assert("roundedBL"@.len() != "m"@.len());
            reveal_strlit("mx");
            assert("roundedBL"@.len() != "mx"@.len());
            reveal_strlit("my");
            assert("roundedBL"@.len() != "my"@.len());
            reveal_strlit("mt");
            assert("roundedBL"@.len() != "mt"@.len());
            reveal_strlit("mb");
            assert("roundedBL"@.len() != "mb"@.len());
            reveal_strlit("ml");
            assert("roundedBL"@.len() != "ml"@.len());
            reveal_strlit("mr");
            assert("roundedBL"@.len() != "mr"@.len());
            reveal_strlit("flex");
            assert("roundedBL"@.len() != "flex"@.len());
            reveal_strlit("flexDir");
            assert("roundedBL"@.len() != "flexDir"@.len());
            reveal_strlit("flexGrow");
            assert("roundedBL"@.len() != "flexGrow"@.len());
            reveal_strlit("flexShrink");
            assert("roundedBL"@.len() != "flexShrink"@.len());
            reveal_strlit("items");
            assert("roundedBL"@.len() != "items"@.len());
            reveal_strlit("justify");
            assert("roundedBL"@.len() != "justify"@.len());
            reveal_strlit("gap");
            assert("roundedBL"@.len() != "gap"@.len());
            reveal_strlit("bg");
            assert("roundedBL"@.len() != "bg"@.len());
            reveal_strlit("color");
            assert("roundedBL"@.len() != "color"@.len());
            reveal_strlit("fontSize");
            assert("roundedBL"@.len() != "fontSize"@.len());
            reveal_strlit("fontWeight");
            assert("roundedBL"@.len() != "fontWeight"@.len());
            reveal_strlit("rounded");
            assert("roundedBL"@.len() != "rounded"@.len());
            reveal_strlit("roundedTL");
            assert("roundedBL"@[7] != "roundedTL"@[7]);
            reveal_strlit("roundedTR");
            assert("roundedBL"@[7] != "roundedTR"@[7]);
            reveal_strlit("roundedBR");
            assert("roundedBL"@[8] != "roundedBR"@[8]);
        },
        StyleProp::Border => {
            reveal_strlit("border");
            reveal_strlit("w");
            assert("border"@.len() != "w"@.len());
            reveal_strlit("h");
            assert("border"@.len() != "h"@.len());
            reveal_strlit("minW");
            assert("border"@.len() != "minW"@.len());
            reveal_strlit("minH");
            assert("border"@.len() != "minH"@.len());
            reveal_strlit("p");
            assert("border"@.len() != "p"@.len());
            reveal_strlit("px");
            assert("border"@.len() != "px"@.len());
            reveal_strlit("py");
            assert("border"@.len() != "py"@.len());
            reveal_strlit("pt");
            assert("border"@.len() != "pt"@.len());
            reveal_strlit("pb");
            assert("border"@.len() != "pb"@.len());
            reveal_strlit("pl");
            assert("border"@.len() != "pl"@.len());
            reveal_strlit("pr");
            assert("border"@.len() != "pr"@.len());
            reveal_strlit("m");
            assert("border"@.len() != "m"@.len());
            reveal_strlit("mx");
            assert("border"@.len() != "mx"@.len());
            reveal_strlit("my");
            assert("border"@.len() != "my"@.len());
            reveal_strlit("mt");
            assert("border"@.len() != "mt"@.len());
            reveal_strlit("mb");
            assert("border"@.len() != "mb"@.len());
            reveal_strlit("ml");
            assert("border"@.len() != "ml"@.len());
            reveal_strlit("mr");
            assert("border"@.len() != "mr"@.len());
            reveal_strlit("flex");
            assert("border"@.len() != "flex"@.len());
            reveal_strlit("flexDir");
            assert("border"@.len() != "flexDir"@.len());
            reveal_strlit("flexGrow");
            assert("border"@.len() != "flexGrow"@.len());
            reveal_strlit("flexShrink");
            assert("border"@.len() != "flexShrink"@.len());
            reveal_strlit("items");
            assert("border"@.len() != "items"@.len());
            reveal_strlit("justify");
            assert("border"@.len() != "justify"@.len());
            reveal_strlit("gap");
            assert("border"@.len() != "gap"@.len());
            reveal_strlit("bg");
            assert("border"@.len() != "bg"@.len());
            reveal_strlit("color");
            assert("border"@.len() != "color"@.len());
            reveal_strlit("fontSize");
            assert("border"@.len() != "fontSize"@.len());
            reveal_strlit("fontWeight");
            assert("border"@.len() != "fontWeight"@.len());
            reveal_strlit("rounded");
            assert("border"@.len() != "rounded"@.len());
            reveal_strlit("roundedTL");
            assert("border"@.len() != "roundedTL"@.len());
            reveal_strlit("roundedTR");
            assert("border"@.len() != "roundedTR"@.len());
            reveal_strlit("roundedBR");
            assert("border"@.len() != "roundedBR"@.len());
            reveal_strlit("roundedBL");
            assert("border"@.len() != "roundedBL"@.len());
        },
        StyleProp::BorderTop => {
            reveal_strlit("borderTop");
            reveal_strlit("w");
            assert("borderTop"@.len() != "w"@.len());
            reveal_strlit("h");
            assert("borderTop"@.len() != "h"@.len());
            reveal_strlit("minW");
            assert("borderTop"@.len() != "minW"@.len());
            reveal_strlit("minH");
            assert("borderTop"@.len() != "minH"@.len());
            reveal_strlit("p");
            assert("borderTop"@.len() != "p"@.len());
            reveal_strlit("px");
            assert("borderTop"@.len() != "px"@.len());
            reveal_strlit("py");
            assert("borderTop"@.len() != "py"@.len());
            reveal_strlit("pt");
            assert("borderTop"@.len() != "pt"@.len());
            reveal_strlit("pb");
            assert("borderTop"@.len() != "pb"@.len());
            reveal_strlit("pl");
            assert("borderTop"@.len() != "pl"@.len());
            reveal_strlit("pr");
            assert("borderTop"@.len() != "pr"@.len());
            reveal_strlit("m");
            assert("borderTop"@.len() != "m"@.len());
            reveal_strlit("mx");
            assert("borderTop"@.len() != "mx"@.len());
            reveal_strlit("my");
            assert("borderTop"@.len() != "my"@.len());
            reveal_strlit("mt");
            assert("borderTop"@.len() != "mt"@.len());
            reveal_strlit("mb");
            assert("borderTop"@.len() != "mb"@.len());
            reveal_strlit("ml");
            assert("borderTop"@.len() != "ml"@.len());
            reveal_strlit("mr");
            assert("borderTop"@.len() != "mr"@.len());
            reveal_strlit("flex");
            assert("borderTop"@.len() != "flex"@.len());
            reveal_strlit("flexDir");
            assert("borderTop"@.len() != "flexDir"@.len());
            reveal_strlit("flexGrow");
            assert("borderTop"@.len() != "flexGrow"@.len());
            reveal_strlit("flexShrink");
            assert("borderTop"@.len() != "flexShrink"@.len());
            reveal_strlit("items");
            assert("borderTop"@.len() != "items"@.len());
            reveal_strlit("justify");
            assert("borderTop"@.len() != "justify"@.len());
            reveal_strlit("gap");
            assert("borderTop"@.len() != "gap"@.len());
            reveal_strlit("bg");
            assert("borderTop"@.len() != "bg"@.len());
            reveal_strlit("color");
            assert("borderTop"@.len() != "color"@.len());
            reveal_strlit("fontSize");
            assert("borderTop"@.len() != "fontSize"@.len());
            reveal_strlit("fontWeight");
            assert("borderTop"@.len() != "fontWeight"@.len());
            reveal_strlit("rounded");
            assert("borderTop"@.len() != "rounded"@.len());
            reveal_strlit("roundedTL");
            assert("borderTop"@[0] != "roundedTL"@[0]);
            reveal_strlit("roundedTR");
            assert("borderTop"@[0] != "roundedTR"@[0]);
            reveal_strlit("roundedBR");
            assert("borderTop"@[0] != "roundedBR"@[0]);
            reveal_strlit("roundedBL");
            assert("borderTop"@[0] != "roundedBL"@[0]);
            reveal_strlit("border");
            assert("borderTop"@.len() != "border"@.len());
        },
        StyleProp::BorderRight => {
            reveal_strlit("borderRight");
            reveal_strlit("w");
            assert("borderRight"@.len() != "w"@.len());
            reveal_strlit("h");
            assert("borderRight"@.len() != "h"@.len());
            reveal_strlit("minW");
            assert("borderRight"@.len() != "minW"@.len());
            reveal_strlit("minH");
            assert("borderRight"@.len() != "minH"@.len());
            reveal_strlit("p");
            assert("borderRight"@.len() != "p"@.len());
            reveal_strlit("px");
            assert("borderRight"@.len() != "px"@.len());
            reveal_strlit("py");
            assert("borderRight"@.len() != "py"@.len());
            reveal_strlit("pt");
            assert("borderRight"@.len() != "pt"@.len());
            reveal_strlit("pb");
            assert("borderRight"@.len() != "pb"@.len());
            reveal_strlit("pl");
            assert("borderRight"@.len() != "pl"@.len());
            reveal_strlit("pr");
            assert("borderRight"@.len() != "pr"@.len());
            reveal_strlit("m");
            assert("borderRight"@.len() != "m"@.len());
            reveal_strlit("mx");
            assert("borderRight"@.len() != "mx"@.len());
            reveal_strlit("my");
            assert("borderRight"@.len() != "my"@.len());
            reveal_strlit("mt");
            assert("borderRight"@.len() != "mt"@.len());
            reveal_strlit("mb");
            assert("borderRight"@.len() != "mb"@.len());
            reveal_strlit("ml");
            assert("borderRight"@.len() != "ml"@.len());
            reveal_strlit("mr");
            assert("borderRight"@.len() != "mr"@.len());
            reveal_strlit("flex");
            assert("borderRight"@.len() != "flex"@.len());
            reveal_strlit("flexDir");
            assert("borderRight"@.len() != "flexDir"@.len());
            reveal_strlit("flexGrow");
            assert("borderRight"@.len() != "flexGrow"@.len());
            reveal_strlit("flexShrink");
            assert("borderRight"@.len() != "flexShrink"@.len());
            reveal_strlit("items");
            assert("borderRight"@.len() != "items"@.len());
            reveal_strlit("justify");
            assert("borderRight"@.len() != "justify"@.len());
            reveal_strlit("gap");
            assert("borderRight"@.len() != "gap"@.len());
            reveal_strlit("bg");
            assert("borderRight"@.len() != "bg"@.len());
            reveal_strlit("color");
            assert("borderRight"@.len() != "color"@.len());
            reveal_strlit("fontSize");
            assert("borderRight"@.len() != "fontSize"@.len());
            reveal_strlit("fontWeight");
            assert("borderRight"@.len() != "fontWeight"@.len());
            reveal_strlit("rounded");
            assert("borderRight"@.len() != "rounded"@.len());
            reveal_strlit("roundedTL");
            assert("borderRight"@.len() != "roundedTL"@.len());
            reveal_strlit("roundedTR");
            assert("borderRight"@.len() != "roundedTR"@.len());
            reveal_strlit("roundedBR");
            assert("borderRight"@.len() != "roundedBR"@.len());
            reveal_strlit("roundedBL");
            assert("borderRight"@.len() != "roundedBL"@.len());
            reveal_strlit("border");
            assert("borderRight"@.len() != "border"@.len());
            reveal_strlit("borderTop");
            assert("borderRight"@.len() != "borderTop"@.len());
        },
        StyleProp::BorderBottom => {
            reveal_strlit("borderBottom");
            reveal_strlit("w");
            assert("borderBottom"@.len() != "w"@.len());
            reveal_strlit("h");
            assert("borderBottom"@.len() != "h"@.len());
            reveal_strlit("minW");
            assert("borderBottom"@.len() != "minW"@.len());
            reveal_strlit("minH");
            assert("borderBottom"@.len() != "minH"@.len());
            reveal_strlit("p");
            assert("borderBottom"@.len() != "p"@.len());
            reveal_strlit("px");
            assert("borderBottom"@.len() != "px"@.len());
            reveal_strlit("py");
            assert("borderBottom"@.len() != "py"@.len());
            reveal_strlit("pt");
            assert("borderBottom"@.len() != "pt"@.len());
            reveal_strlit("pb");
            assert("borderBottom"@.len() != "pb"@.len());
            reveal_strlit("pl");
            assert("borderBottom"@.len() != "pl"@.len());
            reveal_strlit("pr");
            assert("borderBottom"@.len() != "pr"@.len());
            reveal_strlit("m");
            assert("borderBottom"@.len() != "m"@.len());
            reveal_strlit("mx");
            assert("borderBottom"@.len() != "mx"@.len());
            reveal_strlit("my");
            assert("borderBottom"@.len() != "my"@.len());
            reveal_strlit("mt");
            assert("borderBottom"@.len() != "mt"@.len());
            reveal_strlit("mb");
            assert("borderBottom"@.len() != "mb"@.len());
            reveal_strlit("ml");
            assert("borderBottom"@.len() != "ml"@.len());
            reveal_strlit("mr");
            assert("borderBottom"@.len() != "mr"@.len());
            reveal_strlit("flex");
            assert("borderBottom"@.len() != "flex"@.len());
            reveal_strlit("flexDir");
            assert("borderBottom"@.len() != "flexDir"@.len());
            reveal_strlit("flexGrow");
            assert("borderBottom"@.len() != "flexGrow"@.len());
            reveal_strlit("flexShrink");
            assert("borderBottom"@.len() != "flexShrink"@.len());
            reveal_strlit("items");
            assert("borderBottom"@.len() != "items"@.len());
            reveal_strlit("justify");
            assert("borderBottom"@.len() != "justify"@.len());
            reveal_strlit("gap");
            assert("borderBottom"@.len() != "gap"@.len());
            reveal_strlit("bg");
            assert("borderBottom"@.len() != "bg"@.len());
            reveal_strlit("color");
            assert("borderBottom"@.len() != "color"@.len());
            reveal_strlit("fontSize");
            assert("borderBottom"@.len() != "fontSize"@.len());
            reveal_strlit("fontWeight");
            assert("borderBottom"@.len() != "fontWeight"@.len());
            reveal_strlit("rounded");
            assert("borderBottom"@.len() != "rounded"@.len());
            reveal_strlit("roundedTL");
            assert("borderBottom"@.len() != "roundedTL"@.len());
            reveal_strlit("roundedTR");
            assert("borderBottom"@.len() != "roundedTR"@.len());
            reveal_strlit("roundedBR");
            assert("borderBottom"@.len() != "roundedBR"@.len());
            reveal_strlit("roundedBL");
            assert("borderBottom"@.len() != "roundedBL"@.len());
            reveal_strlit("border");
            assert("borderBottom"@.len() != "border"@.len());
            reveal_strlit("borderTop");
            assert("borderBottom"@.len() != "borderTop"@.len());
            reveal_strlit("borderRight");
            assert("borderBottom"@.len() != "borderRight"@.len());
        },
        StyleProp::BorderLeft => {
            reveal_strlit("borderLeft");
            reveal_strlit("w");
            assert("borderLeft"@.len() != "w"@.len());
            reveal_strlit("h");
            assert("borderLeft"@.len() != "h"@.len());
            reveal_strlit("minW");
            assert("borderLeft"@.len() != "minW"@.len());
            reveal_strlit("minH");
            assert("borderLeft"@.len() != "minH"@.len());
            reveal_strlit("p");
            assert("borderLeft"@.len() != "p"@.len());
            reveal_strlit("px");
            assert("borderLeft"@.len() != "px"@.len());
            reveal_strlit("py");
            assert("borderLeft"@.len() != "py"@.len());
            reveal_strlit("pt");
            assert("borderLeft"@.len() != "pt"@.len());
            reveal_strlit("pb");
            assert("borderLeft"@.len() != "pb"@.len());
            reveal_strlit("pl");
            assert("borderLeft"@.len() != "pl"@.len());
            reveal_strlit("pr");
            assert("borderLeft"@.len() != "pr"@.len());
            reveal_strlit("m");
            assert("borderLeft"@.len() != "m"@.len());
            reveal_strlit("mx");
            assert("borderLeft"@.len() != "mx"@.len());
            reveal_strlit("my");
            assert("borderLeft"@.len() != "my"@.len());
            reveal_strlit("mt");
            assert("borderLeft"@.len() != "mt"@.len());
            reveal_strlit("mb");
            assert("borderLeft"@.len() != "mb"@.len());
            reveal_strlit("ml");
            assert("borderLeft"@.len() != "ml"@.len());
            reveal_strlit("mr");
            assert("borderLeft"@.len() != "mr"@.len());
            reveal_strlit("flex");
            assert("borderLeft"@.len() != "flex"@.len());
            reveal_strlit("flexDir");
            assert("borderLeft"@.len() != "flexDir"@.len());
            reveal_strlit("flexGrow");
            assert("borderLeft"@.len() != "flexGrow"@.len());
            reveal_strlit("flexShrink");
            assert("borderLeft"@[0] != "flexShrink"@[0]);
            reveal_strlit("items");
            assert("borderLeft"@.len() != "items"@.len());
            reveal_strlit("justify");
            assert("borderLeft"@.len() != "justify"@.len());
            reveal_strlit("gap");
            assert("borderLeft"@.len() != "gap"@.len());
            reveal_strlit("bg");
            assert("borderLeft"@.len() != "bg"@.len());
            reveal_strlit("color");
            assert("borderLeft"@.len() != "color"@.len());
            reveal_strlit("fontSize");
            assert("borderLeft"@.len() != "fontSize"@.len());
            reveal_strlit("fontWeight");
            assert("borderLeft"@[0] != "fontWeight"@[0]);
            reveal_strlit("rounded");
            assert("borderLeft"@.len() != "rounded"@.len());
            reveal_strlit("roundedTL");
            assert("borderLeft"@.len() != "roundedTL"@.len());
            reveal_strlit("roundedTR");
            assert("borderLeft"@.len() != "roundedTR"@.len());
            reveal_strlit("roundedBR");
            assert("borderLeft"@.len() != "roundedBR"@.len());
            reveal_strlit("roundedBL");
            assert("borderLeft"@.len() != "roundedBL"@.len());
            reveal_strlit("border");
            assert("borderLeft"@.len() != "border"@.len());
            reveal_strlit("borderTop");
            assert("borderLeft"@.len() != "borderTop"@.len());
            reveal_strlit("borderRight");
            assert("borderLeft"@.len() != "borderRight"@.len());
            reveal_strlit("borderBottom");
            assert("borderLeft"@.len() != "borderBottom"@.len());
        },
        StyleProp::BorderColor => {
            reveal_strlit("borderColor");
            reveal_strlit("w");
            assert("borderColor"@.len() != "w"@.len());
            reveal_strlit("h");
            assert("borderColor"@.len() != "h"@.len());
            reveal_strlit("minW");
            assert("borderColor"@.len() != "minW"@.len());
            reveal_strlit("minH");
            assert("borderColor"@.len() != "minH"@.len());
            reveal_strlit("p");
            assert("borderColor"@.len() != "p"@.len());
            reveal_strlit("px");
            assert("borderColor"@.len() != "px"@.len());
            reveal_strlit("py");
            assert("borderColor"@.len() != "py"@.len());
            reveal_strlit("pt");
            assert("borderColor"@.len() != "pt"@.len());
            reveal_strlit("pb");
            assert("borderColor"@.len() != "pb"@.len());
            reveal_strlit("pl");
            assert("borderColor"@.len() != "pl"@.len());
            reveal_strlit("pr");
            assert("borderColor"@.len() != "pr"@.len());
            reveal_strlit("m");
            assert("borderColor"@.len() != "m"@.len());
            reveal_strlit("mx");
            assert("borderColor"@.len() != "mx"@.len());
            reveal_strlit("my");
            assert("borderColor"@.len() != "my"@.len());
            reveal_strlit("mt");
            assert("borderColor"@.len() != "mt"@.len());
            reveal_strlit("mb");
            assert("borderColor"@.len() != "mb"@.len());
            reveal_strlit("ml");
            assert("borderColor"@.len() != "ml"@.len());
            reveal_strlit("mr");
            assert("borderColor"@.len() != "mr"@.len());
            reveal_strlit("flex");
            assert("borderColor"@.len() != "flex"@.len());
            reveal_strlit("flexDir");
            assert("borderColor"@.len() != "flexDir"@.len());
            reveal_strlit("flexGrow");
            assert("borderColor"@.len() != "flexGrow"@.len());
            reveal_strlit("flexShrink");
            assert("borderColor"@.len() != "flexShrink"@.len());
            reveal_strlit("items");
            assert("borderColor"@.len() != "items"@.len());
            reveal_strlit("justify");
            assert("borderColor"@.len() != "justify"@.len());
            reveal_strlit("gap");
            assert("borderColor"@.len() != "gap"@.len());
            reveal_strlit("bg");
            assert("borderColor"@.len() != "bg"@.len());
            reveal_strlit("color");
            assert("borderColor"@.len() != "color"@.len());
            reveal_strlit("fontSize");
            assert("borderColor"@.len() != "fontSize"@.len());
            reveal_strlit("fontWeight");
            assert("borderColor"@.len() != "fontWeight"@.len());
            reveal_strlit("rounded");
            assert("borderColor"@.len() != "rounded"@.len());
            reveal_strlit("roundedTL");
            assert("borderColor"@.len() != "roundedTL"@.len());
            reveal_strlit("roundedTR");
            assert("borderColor"@.len() != "roundedTR"@.len());
            reveal_strlit("roundedBR");
            assert("borderColor"@.len() != "roundedBR"@.len());
            reveal_strlit("roundedBL");
            assert("borderColor"@.len() != "roundedBL"@.len());
            reveal_strlit("border");
            assert("borderColor"@.len() != "border"@.len());
            reveal_strlit("borderTop");
            assert("borderColor"@.len() != "borderTop"@.len());
            reveal_strlit("borderRight");
            assert("borderColor"@[6] != "borderRight"@[6]);
            reveal_strlit("borderBottom");
            assert("borderColor"@.len() != "borderBottom"@.len());
            reveal_strlit("borderLeft");
            assert("borderColor"@.len() != "borderLeft"@.len());
        },
        StyleProp::Opacity => {
            reveal_strlit("opacity");
            reveal_strlit("w");
            assert("opacity"@.len() != "w"@.len());
            reveal_strlit("h");
            assert("opacity"@.len() != "h"@.len());
            reveal_strlit("minW");
            assert("opacity"@.len() != "minW"@.len());
            reveal_strlit("minH");
            assert("opacity"@.len() != "minH"@.len());
            reveal_strlit("p");
            assert("opacity"@.len() != "p"@.len());
            reveal_strlit("px");
            assert("opacity"@.len() != "px"@.len());
            reveal_strlit("py");
            assert("opacity"@.len() != "py"@.len());
            reveal_strlit("pt");
            assert("opacity"@.len() != "pt"@.len());
            reveal_strlit("pb");
            assert("opacity"@.len() != "pb"@.len());
            reveal_strlit("pl");
            assert("opacity"@.len() != "pl"@.len());
            reveal_strlit("pr");
            assert("opacity"@.len() != "pr"@.len());
            reveal_strlit("m");
            assert("opacity"@.len() != "m"@.len());
            reveal_strlit("mx");
            assert("opacity"@.len() != "mx"@.len());
            reveal_strlit("my");
            assert("opacity"@.len() != "my"@.len());
            reveal_strlit("mt");
            assert("opacity"@.len() != "mt"@.len());
            reveal_strlit("mb");
            assert("opacity"@.len() != "mb"@.len());
            reveal_strlit("ml");
            assert("opacity"@.len() != "ml"@.len());
            reveal_strlit("mr");
            assert("opacity"@.len() != "mr"@.len());
            reveal_strlit("flex");
            assert("opacity"@.len() != "flex"@.len());
            reveal_strlit("flexDir");
            assert("opacity"@[0] != "flexDir"@[0]);
            reveal_strlit("flexGrow");
            assert("opacity"@.len() != "flexGrow"@.len());
            reveal_strlit("flexShrink");
            assert("opacity"@.len() != "flexShrink"@.len());
            reveal_strlit("items");
            assert("opacity"@.len() != "items"@.len());
            reveal_strlit("justify");
            assert("opacity"@[0] != "justify"@[0]);
            reveal_strlit("gap");
            assert("opacity"@.len() != "gap"@.len());
            reveal_strlit("bg");
            assert("opacity"@.len() != "bg"@.len());
            reveal_strlit("color");
            assert("opacity"@.len() != "color"@.len());
            reveal_strlit("fontSize");
            assert("opacity"@.len() != "fontSize"@.len());
            reveal_strlit("fontWeight");
            assert("opacity"@.len() != "fontWeight"@.len());
            reveal_strlit("rounded");
            assert("opacity"@[0] != "rounded"@[0]);
            reveal_strlit("roundedTL");
            assert("opacity"@.len() != "roundedTL"@.len());
            reveal_strlit("roundedTR");
            assert("opacity"@.len() != "roundedTR"@.len());
            reveal_strlit("roundedBR");
            assert("opacity"@.len() != "roundedBR"@.len());
            reveal_strlit("roundedBL");
            assert("opacity"@.len() != "roundedBL"@.len());
            reveal_strlit("border");
            assert("opacity"@.len() != "border"@.len());
            reveal_strlit("borderTop");
            assert("opacity"@.len() != "borderTop"@.len());
            reveal_strlit("borderRight");
            assert("opacity"@.len() != "borderRight"@.len());
            reveal_strlit("borderBottom");
            assert("opacity"@.len() != "borderBottom"@.len());
            reveal_strlit("borderLeft");
            assert("opacity"@.len() != "borderLeft"@.len());
            reveal_strlit("borderColor");
            assert("opacity"@.len() != "borderColor"@.len());
        },
        StyleProp::Display => {
            reveal_strlit("display");
            reveal_strlit("w");
            assert("display"@.len() != "w"@.len());
            reveal_strlit("h");
            assert("display"@.len() != "h"@.len());
            reveal_strlit("minW");
            assert("display"@.len() != "minW"@.len());
            reveal_strlit("minH");
            assert("display"@.len() != "minH"@.len());
            reveal_strlit("p");
            assert("display"@.len() != "p"@.len());
            reveal_strlit("px");
            assert("display"@.len() != "px"@.len());
            reveal_strlit("py");
            assert("display"@.len() != "py"@.len());
            reveal_strlit("pt");
            assert("display"@.len() != "pt"@.len());
            reveal_strlit("pb");
            assert("display"@.len() != "pb"@.len());
            reveal_strlit("pl");
            assert("display"@.len() != "pl"@.len());
            reveal_strlit("pr");
            assert("display"@.len() != "pr"@.len());
            reveal_strlit("m");
            assert("display"@.len() != "m"@.len());
            reveal_strlit("mx");
            assert("display"@.len() != "mx"@.len());
            reveal_strlit("my");
            assert("display"@.len() != "my"@.len());
            reveal_strlit("mt");
            assert("display"@.len() != "mt"@.len());
            reveal_strlit("mb");
            assert("display"@.len() != "mb"@.len());
            reveal_strlit("ml");
            assert("display"@.len() != "ml"@.len());
            reveal_strlit("mr");
            assert("display"@.len() != "mr"@.len());
            reveal_strlit("flex");
            assert("display"@.len() != "flex"@.len());
            reveal_strlit("flexDir");
            assert("display"@[0] != "flexDir"@[0]);
            reveal_strlit("flexGrow");
            assert("display"@.len() != "flexGrow"@.len());
            reveal_strlit("flexShrink");
            assert("display"@.len() != "flexShrink"@.len());
            reveal_strlit("items");
            assert("display"@.len() != "items"@.len());
            reveal_strlit("justify");
            assert("display"@[0] != "justify"@[0]);
            reveal_strlit("gap");
            assert("display"@.len() != "gap"@.len());
            reveal_strlit("bg");
            assert("display"@.len() != "bg"@.len());
            reveal_strlit("color");
            assert("display"@.len() != "color"@.len());
            reveal_strlit("fontSize");
            assert("display"@.len() != "fontSize"@.len());
            reveal_strlit("fontWeight");
            assert("display"@.len() != "fontWeight"@.len());
            reveal_strlit("rounded");
            assert("display"@[0] != "rounded"@[0]);
            reveal_strlit("roundedTL");
            assert("display"@.len() != "roundedTL"@.len());
            reveal_strlit("roundedTR");
            assert("display"@.len() != "roundedTR"@.len());
            reveal_strlit("roundedBR");
            assert("display"@.len() != "roundedBR"@.len());
            reveal_strlit("roundedBL");
            assert("display"@.len() != "roundedBL"@.len());
            reveal_strlit("border");
            assert("display"@.len() != "border"@.len());
            reveal_strlit("borderTop");
            assert("display"@.len() != "borderTop"@.len());
            reveal_strlit("borderRight");
            assert("display"@.len() != "borderRight"@.len());
            reveal_strlit("borderBottom");
            assert("display"@.len() != "borderBottom"@.len());
            reveal_strlit("borderLeft");
            assert("display"@.len() != "borderLeft"@.len());
            reveal_strlit("borderColor");
            assert("display"@.len() != "borderColor"@.len());
            reveal_strlit("opacity");
            assert("display"@[0] != "opacity"@[0]);
        },
        StyleProp::Cursor => {
            reveal_strlit("cursor");
            reveal_strlit("w");
            assert("cursor"@.len() != "w"@.len());
            reveal_strlit("h");
            assert("cursor"@.len() != "h"@.len());
            reveal_strlit("minW");
            assert("cursor"@.len() != "minW"@.len());
            reveal_strlit("minH");
            assert("cursor"@.len() != "minH"@.len());
            reveal_strlit("p");
            assert("cursor"@.len() != "p"@.len());
            reveal_strlit("px");
            assert("cursor"@.len() != "px"@.len());
            reveal_strlit("py");
            assert("cursor"@.len() != "py"@.len());
            reveal_strlit("pt");
            assert("cursor"@.len() != "pt"@.len());
            reveal_strlit("pb");
            assert("cursor"@.len() != "pb"@.len());
            reveal_strlit("pl");
            assert("cursor"@.len() != "pl"@.len());
            reveal_strlit("pr");
            assert("cursor"@.len() != "pr"@.len());
            reveal_strlit("m");
            assert("cursor"@.len() != "m"@.len());
            reveal_strlit("mx");
            assert("cursor"@.len() != "mx"@.len());
            reveal_strlit("my");
            assert("cursor"@.len() != "my"@.len());
            reveal_strlit("mt");
            assert("cursor"@.len() != "mt"@.len());
            reveal_strlit("mb");
            assert("cursor"@.len() != "mb"@.len());
            reveal_strlit("ml");
            assert("cursor"@.len() != "ml"@.len());
            reveal_strlit("mr");
            assert("cursor"@.len() != "mr"@.len());
            reveal_strlit("flex");
            assert("cursor"@.len() != "flex"@.len());
            reveal_strlit("flexDir");
            assert("cursor"@.len() != "flexDir"@.len());
            reveal_strlit("flexGrow");
            assert("cursor"@.len() != "flexGrow"@.len());
            reveal_strlit("flexShrink");
            assert("cursor"@.len() != "flexShrink"@.len());
            reveal_strlit("items");
            assert("cursor"@.len() != "items"@.len());
            reveal_strlit("justify");
            assert("cursor"@.len() != "justify"@.len());
            reveal_strlit("gap");
            assert("cursor"@.len() != "gap"@.len());
            reveal_strlit("bg");
            assert("cursor"@.len() != "bg"@.len());
            reveal_strlit("color");
            assert("cursor"@.len() != "color"@.len());
            reveal_strlit("fontSize");
            assert("cursor"@.len() != "fontSize"@.len());
            reveal_strlit("fontWeight");
            assert("cursor"@.len() != "fontWeight"@.len());
            reveal_strlit("rounded");
            assert("cursor"@.len() != "rounded"@.len());
            reveal_strlit("roundedTL");
            assert("cursor"@.len() != "roundedTL"@.len());
            reveal_strlit("roundedTR");
            assert("cursor"@.len() != "roundedTR"@.len());
            reveal_strlit("roundedBR");
            assert("cursor"@.len() != "roundedBR"@.len());
            reveal_strlit("roundedBL");
            assert("cursor"@.len() != "roundedBL"@.len());
            reveal_strlit("border");
            assert("cursor"@[0] != "border"@[0]);
            reveal_strlit("borderTop");
            assert("cursor"@.len() != "borderTop"@.len());
            reveal_strlit("borderRight");
            assert("cursor"@.len() != "borderRight"@.len());
            reveal_strlit("borderBottom");
            assert("cursor"@.len() != "borderBottom"@.len());
            reveal_strlit("borderLeft");
            assert("cursor"@.len() != "borderLeft"@.len());
            reveal_strlit("borderColor");
            assert("cursor"@.len() != "borderColor"@.len());
            reveal_strlit("opacity");
            assert("cursor"@.len() != "opacity"@.len());
            reveal_strlit("display");
            assert("cursor"@.len() != "display"@.len());
        },
        StyleProp::Interactive => {
            reveal_strlit("interactive");
            reveal_strlit("w");
            assert("interactive"@.len() != "w"@.len());
            reveal_strlit("h");
            assert("interactive"@.len() != "h"@.len());
            reveal_strlit("minW");
            assert("interactive"@.len() != "minW"@.len());
            reveal_strlit("minH");
            assert("interactive"@.len() != "minH"@.len());
            reveal_strlit("p");
            assert("interactive"@.len() != "p"@.len());
            reveal_strlit("px");
            assert("interactive"@.len() != "px"@.len());
            reveal_strlit("py");
            assert("interactive"@.len() != "py"@.len());
            reveal_strlit("pt");
            assert("interactive"@.len() != "pt"@.len());
            reveal_strlit("pb");
            assert("interactive"@.len() != "pb"@.len());
            reveal_strlit("pl");
            assert("interactive"@.len() != "pl"@.len());
            reveal_strlit("pr");
            assert("interactive"@.len() != "pr"@.len());
            reveal_strlit("m");
            assert("interactive"@.len() != "m"@.len());
            reveal_strlit("mx");
            assert("interactive"@.len() != "mx"@.len());
            reveal_strlit("my");
            assert("interactive"@.len() != "my"@.len());
            reveal_strlit("mt");
            assert("interactive"@.len() != "mt"@.len());
            reveal_strlit("mb");
            assert("interactive"@.len() != "mb"@.len());
            reveal_strlit("ml");
            assert("interactive"@.len() != "ml"@.len());
            reveal_strlit("mr");
            assert("interactive"@.len() != "mr"@.len());
            reveal_strlit("flex");
            assert("interactive"@.len() != "flex"@.len());
            reveal_strlit("flexDir");
            assert("interactive"@.len() != "flexDir"@.len());
            reveal_strlit("flexGrow");
            assert("interactive"@.len() != "flexGrow"@.len());
            reveal_strlit("flexShrink");
            assert("interactive"@.len() != "flexShrink"@.len());
            reveal_strlit("items");
            assert("interactive"@.len() != "items"@.len());
            reveal_strlit("justify");
            assert("interactive"@.len() != "justify"@.len());
            reveal_strlit("gap");
            assert("interactive"@.len() != "gap"@.len());
            reveal_strlit("bg");
            assert("interactive"@.len() != "bg"@.len());
            reveal_strlit("color");
            assert("interactive"@.len() != "color"@.len());
            reveal_strlit("fontSize");
            assert("interactive"@.len() != "fontSize"@.len());
            reveal_strlit("fontWeight");
            assert("interactive"@.len() != "fontWeight"@.len());
            reveal_strlit("rounded");
            assert("interactive"@.len() != "rounded"@.len());
            reveal_strlit("roundedTL");
            assert("interactive"@.len() != "roundedTL"@.len());
            reveal_strlit("roundedTR");
            assert("interactive"@.len() != "roundedTR"@.len());
            reveal_strlit("roundedBR");
            assert("interactive"@.len() != "roundedBR"@.len());
            reveal_strlit("roundedBL");
            assert("interactive"@.len() != "roundedBL"@.len());
            reveal_strlit("border");
            assert("interactive"@.len() != "border"@.len());
            reveal_strlit("borderTop");
            assert("interactive"@.len() != "borderTop"@.len());
            reveal_strlit("borderRight");
            assert("interactive"@[0] != "borderRight"@[0]);
            reveal_strlit("borderBottom");
            assert("interactive"@.len() != "borderBottom"@.len());
            reveal_strlit("borderLeft");
            assert("interactive"@.len() != "borderLeft"@.len());
            reveal_strlit("borderColor");
            assert("interactive"@[0] != "borderColor"@[0]);
            reveal_strlit("opacity");
            assert("interactive"@.len() != "opacity"@.len());
            reveal_strlit("display");
            assert("interactive"@.len() != "display"@.len());
            reveal_strlit("cursor");
            assert("interactive"@.len() != "cursor"@.len());
        },
        StyleProp::Visibility => {
            reveal_strlit("visibility");
            reveal_strlit("w");
            assert("visibility"@.len() != "w"@.len());
            reveal_strlit("h");
            assert("visibility"@.len() != "h"@.len());
            reveal_strlit("minW");
            assert("visibility"@.len() != "minW"@.len());
            reveal_strlit("minH");
            assert("visibility"@.len() != "minH"@.len());
            reveal_strlit("p");
            assert("visibility"@.len() != "p"@.len());
            reveal_strlit("px");
            assert("visibility"@.len() != "px"@.len());
            reveal_strlit("py");
            assert("visibility"@.len() != "py"@.len());
            reveal_strlit("pt");
            assert("visibility"@.len() != "pt"@.len());
            reveal_strlit("pb");
            assert("visibility"@.len() != "pb"@.len());
            reveal_strlit("pl");
            assert("visibility"@.len() != "pl"@.len());
            reveal_strlit("pr");
            assert("visibility"@.len() != "pr"@.len());
            reveal_strlit("m");
            assert("visibility"@.len() != "m"@.len());
            reveal_strlit("mx");
            assert("visibility"@.len() != "mx"@.len());
            reveal_strlit("my");
            assert("visibility"@.len() != "my"@.len());
            reveal_strlit("mt");
            assert("visibility"@.len() != "mt"@.len());
            reveal_strlit("mb");
            assert("visibility"@.len() != "mb"@.len());
            reveal_strlit("ml");
            assert("visibility"@.len() != "ml"@.len());
            reveal_strlit("mr");
            assert("visibility"@.len() != "mr"@.len());
            reveal_strlit("flex");
            assert("visibility"@.len() != "flex"@.len());
            reveal_strlit("flexDir");
            assert("visibility"@.len() != "flexDir"@.len());
            reveal_strlit("flexGrow");
            assert("visibility"@.len() != "flexGrow"@.len());
            reveal_strlit("flexShrink");
            assert("visibility"@[0] != "flexShrink"@[0]);
            reveal_strlit("items");
            assert("visibility"@.len() != "items"@.len());
            reveal_strlit("justify");
            assert("visibility"@.len() != "justify"@.len());
            reveal_strlit("gap");
            assert("visibility"@.len() != "gap"@.len());
            reveal_strlit("bg");
            assert("visibility"@.len() != "bg"@.len());
            reveal_strlit("color");
            assert("visibility"@.len() != "color"@.len());
            reveal_strlit("fontSize");
            assert("visibility"@.len() != "fontSize"@.len());
            reveal_strlit("fontWeight");
            assert("visibility"@[0] != "fontWeight"@[0]);
            reveal_strlit("rounded");
            assert("visibility"@.len() != "rounded"@.len());
            reveal_strlit("roundedTL");
            assert("visibility"@.len() != "roundedTL"@.len());
            reveal_strlit("roundedTR");
            assert("visibility"@.len() != "roundedTR"@.len());
            reveal_strlit("roundedBR");
            assert("visibility"@.len() != "roundedBR"@.len());
            reveal_strlit("roundedBL");
            assert("visibility"@.len() != "roundedBL"@.len());
            reveal_strlit("border");
            assert("visibility"@.len() != "border"@.len());
            reveal_strlit("borderTop");
            assert("visibility"@.len() != "borderTop"@.len());
            reveal_strlit("borderRight");
            assert("visibility"@.len() != "borderRight"@.len());
            reveal_strlit("borderBottom");
            assert("visibility"@.len() != "borderBottom"@.len());
            reveal_strlit("borderLeft");
            assert("visibility"@[0] != "borderLeft"@[0]);
            reveal_strlit("borderColor");
            assert("visibility"@.len() != "borderColor"@.len());
            reveal_strlit("opacity");
            assert("visibility"@.len() != "opacity"@.len());
            reveal_strlit("display");
            assert("visibility"@.len() != "display"@.len());
            reveal_strlit("cursor");
            assert("visibility"@.len() != "cursor"@.len());
            reveal_strlit("interactive");
            assert("visibility"@.len() != "interactive"@.len());
        },
        StyleProp::Scrollable => {
            reveal_strlit("scrollable");
            reveal_strlit("w");
            assert("scrollable"@.len() != "w"@.len());
            reveal_strlit("h");
            assert("scrollable"@.len() != "h"@.len());
            reveal_strlit("minW");
            assert("scrollable"@.len() != "minW"@.len());
            reveal_strlit("minH");
            assert("scrollable"@.len() != "minH"@.len());
            reveal_strlit("p");
            assert("scrollable"@.len() != "p"@.len());
            reveal_strlit("px");
            assert("scrollable"@.len() != "px"@.len());
            reveal_strlit("py");
            assert("scrollable"@.len() != "py"@.len());
            reveal_strlit("pt");
            assert("scrollable"@.len() != "pt"@.len());
            reveal_strlit("pb");
            assert("scrollable"@.len() != "pb"@.len());
            reveal_strlit("pl");
            assert("scrollable"@.len() != "pl"@.len());
            reveal_strlit("pr");
            assert("scrollable"@.len() != "pr"@.len());
            reveal_strlit("m");
            assert("scrollable"@.len() != "m"@.len());
            reveal_strlit("mx");
            assert("scrollable"@.len() != "mx"@.len());
            reveal_strlit("my");
            assert("scrollable"@.len() != "my"@.len());
            reveal_strlit("mt");
            assert("scrollable"@.len() != "mt"@.len());
            reveal_strlit("mb");
            assert("scrollable"@.len() != "mb"@.len());
            reveal_strlit("ml");
            assert("scrollable"@.len() != "ml"@.len());
            reveal_strlit("mr");
            assert("scrollable"@.len() != "mr"@.len());
            reveal_strlit("flex");
            assert("scrollable"@.len() != "flex"@.len());
            reveal_strlit("flexDir");
            assert("scrollable"@.len() != "flexDir"@.len());
            reveal_strlit("flexGrow");
            assert("scrollable"@.len() != "flexGrow"@.len());
            reveal_strlit("flexShrink");
            assert("scrollable"@[0] != "flexShrink"@[0]);
            reveal_strlit("items");
            assert("scrollable"@.len() != "items"@.len());
            reveal_strlit("justify");
            assert("scrollable"@.len() != "justify"@.len());
            reveal_strlit("gap");
            assert("scrollable"@.len() != "gap"@.len());
            reveal_strlit("bg");
            assert("scrollable"@.len() != "bg"@.len());
            reveal_strlit("color");
            assert("scrollable"@.len() != "color"@.len());
            reveal_strlit("fontSize");
            assert("scrollable"@.len() != "fontSize"@.len());
            reveal_strlit("fontWeight");
            assert("scrollable"@[0] != "fontWeight"@[0]);
            reveal_strlit("rounded");
            assert("scrollable"@.len() != "rounded"@.len());
            reveal_strlit("roundedTL");
            assert("scrollable"@.len() != "roundedTL"@.len());
            reveal_strlit("roundedTR");
            assert("scrollable"@.len() != "roundedTR"@.len());
            reveal_strlit("roundedBR");
            assert("scrollable"@.len() != "roundedBR"@.len());
            reveal_strlit("roundedBL");
            assert("scrollable"@.len() != "roundedBL"@.len());
            reveal_strlit("border");
            assert("scrollable"@.len() != "border"@.len());
            reveal_strlit("borderTop");
            assert("scrollable"@.len() != "borderTop"@.len());
            reveal_strlit("borderRight");
            assert("scrollable"@.len() != "borderRight"@.len());
            reveal_strlit("borderBottom");
            assert("scrollable"@.len() != "borderBottom"@.len());
            reveal_strlit("borderLeft");
            assert("scrollable"@[0] != "borderLeft"@[0]);
            reveal_strlit("borderColor");
            assert("scrollable"@.len() != "borderColor"@.len());
            reveal_strlit("opacity");
            assert("scrollable"@.len() != "opacity"@.len());
            reveal_strlit("display");
            assert("scrollable"@.len() != "display"@.len());
            reveal_strlit("cursor");
            assert("scrollable"@.len() != "cursor"@.len());
            reveal_strlit("interactive");
            assert("scrollable"@.len() != "interactive"@.len());
            reveal_strlit("visibility");
            assert("scrollable"@[0] != "visibility"@[0]);
        },
        StyleProp::TextSelect => {
            reveal_strlit("selectable");
            reveal_strlit("w");
            assert("selectable"@.len() != "w"@.len());
            reveal_strlit("h");
            assert("selectable"@.len() != "h"@.len());
            reveal_strlit("minW");
            assert("selectable"@.len() != "minW"@.len());
            reveal_strlit("minH");
            assert("selectable"@.len() != "minH"@.len());
            reveal_strlit("p");
            assert("selectable"@.len() != "p"@.len());
            reveal_strlit("px");
            assert("selectable"@.len() != "px"@.len());
            reveal_strlit("py");
            assert("selectable"@.len() != "py"@.len());
            reveal_strlit("pt");
            assert("selectable"@.len() != "pt"@.len());
            reveal_strlit("pb");
            assert("selectable"@.len() != "pb"@.len());
            reveal_strlit("pl");
            assert("selectable"@.len() != "pl"@.len());
            reveal_strlit("pr");
            assert("selectable"@.len() != "pr"@.len());
            reveal_strlit("m");
            assert("selectable"@.len() != "m"@.len());
            reveal_strlit("mx");
            assert("selectable"@.len() != "mx"@.len());
            reveal_strlit("my");
            assert("selectable"@.len() != "my"@.len());
            reveal_strlit("mt");
            assert("selectable"@.len() != "mt"@.len());
            reveal_strlit("mb");
            assert("selectable"@.len() != "mb"@.len());
            reveal_strlit("ml");
            assert("selectable"@.len() != "ml"@.len());
            reveal_strlit("mr");
            assert("selectable"@.len() != "mr"@.len());
            reveal_strlit("flex");
            assert("selectable"@.len() != "flex"@.len());
            reveal_strlit("flexDir");
            assert("selectable"@.len() != "flexDir"@.len());
            reveal_strlit("flexGrow");
            assert("selectable"@.len() != "flexGrow"@.len());
            reveal_strlit("flexShrink");
            assert("selectable"@[0] != "flexShrink"@[0]);
            reveal_strlit("items");
            assert("selectable"@.len() != "items"@.len());
            reveal_strlit("justify");
            assert("selectable"@.len() != "justify"@.len());
            reveal_strlit("gap");
            assert("selectable"@.len() != "gap"@.len());
            reveal_strlit("bg");
            assert("selectable"@.len() != "bg"@.len());
            reveal_strlit("color");
            assert("selectable"@.len() != "color"@.len());
            reveal_strlit("fontSize");
            assert("selectable"@.len() != "fontSize"@.len());
            reveal_strlit("fontWeight");
            assert("selectable"@[0] != "fontWeight"@[0]);
            reveal_strlit("rounded");
            assert("selectable"@.len() != "rounded"@.len());
            reveal_strlit("roundedTL");
            assert("selectable"@.len() != "roundedTL"@.len());
            reveal_strlit("roundedTR");
            assert("selectable"@.len() != "roundedTR"@.len());
            reveal_strlit("roundedBR");
            assert("selectable"@.len() != "roundedBR"@.len());
            reveal_strlit("roundedBL");
            assert("selectable"@.len() != "roundedBL"@.len());
            reveal_strlit("border");
            assert("selectable"@.len() != "border"@.len());
            reveal_strlit("borderTop");
            assert("selectable"@.len() != "borderTop"@.len());
            reveal_strlit("borderRight");
            assert("selectable"@.len() != "borderRight"@.len());
            reveal_strlit("borderBottom");
            assert("selectable"@.len() != "borderBottom"@.len());
            reveal_strlit("borderLeft");
            assert("selectable"@[0] != "borderLeft"@[0]);
            reveal_strlit("borderColor");
            assert("selectable"@.len() != "borderColor"@.len());
            reveal_strlit("opacity");
            assert("selectable"@.len() != "opacity"@.len());
            reveal_strlit("display");
            assert("selectable"@.len() != "display"@.len());
            reveal_strlit("cursor");
            assert("selectable"@.len() != "cursor"@.len());
            reveal_strlit("interactive");
            assert("selectable"@.len() != "interactive"@.len());
            reveal_strlit("visibility");
            assert("selectable"@[0] != "visibility"@[0]);
            reveal_strlit("scrollable");
            assert("selectable"@[1] != "scrollable"@[1]);
        },
        StyleProp::TextWrap => {
            reveal_strlit("textWrap");
            reveal_strlit("w");
            assert("textWrap"@.len() != "w"@.len());
            reveal_strlit("h");
            assert("textWrap"@.len() != "h"@.len());
            reveal_strlit("minW");
            assert("textWrap"@.len() != "minW"@.len());
            reveal_strlit("minH");
            assert("textWrap"@.len() != "minH"@.len());
            reveal_strlit("p");
            assert("textWrap"@.len() != "p"@.len());
            reveal_strlit("px");
            assert("textWrap"@.len() != "px"@.len());
            reveal_strlit("py");
            assert("textWrap"@.len() != "py"@.len());
            reveal_strlit("pt");
            assert("textWrap"@.len() != "pt"@.len());
            reveal_strlit("pb");
            assert("textWrap"@.len() != "pb"@.len());
            reveal_strlit("pl");
            assert("textWrap"@.len() != "pl"@.len());
            reveal_strlit("pr");
            assert("textWrap"@.len() != "pr"@.len());
            reveal_strlit("m");
            assert("textWrap"@.len() != "m"@.len());
            reveal_strlit("mx");
            assert("textWrap"@.len() != "mx"@.len());
            reveal_strlit("my");
            assert("textWrap"@.len() != "my"@.len());
            reveal_strlit("mt");
            assert("textWrap"@.len() != "mt"@.len());
            reveal_strlit("mb");
            assert("textWrap"@.len() != "mb"@.len());
            reveal_strlit("ml");
            assert("textWrap"@.len() != "ml"@.len());
            reveal_strlit("mr");
            assert("textWrap"@.len() != "mr"@.len());
            reveal_strlit("flex");
            assert("textWrap"@.len() != "flex"@.len());
            reveal_strlit("flexDir");
            assert("textWrap"@.len() != "flexDir"@.len());
            reveal_strlit("flexGrow");
            assert("textWrap"@[0] != "flexGrow"@[0]);
            reveal_strlit("flexShrink");
            assert("textWrap"@.len() != "flexShrink"@.len());
            reveal_strlit("items");
            assert("textWrap"@.len() != "items"@.len());
            reveal_strlit("justify");
            assert("textWrap"@.len() != "justify"@.len());
            reveal_strlit("gap");
            assert("textWrap"@.len() != "gap"@.len());
            reveal_strlit("bg");
            assert("textWrap"@.len() != "bg"@.len());
            reveal_strlit("color");
            assert("textWrap"@.len() != "color"@.len());
            reveal_strlit("fontSize");
            assert("textWrap"@[0] != "fontSize"@[0]);
            reveal_strlit("fontWeight");
            assert("textWrap"@.len() != "fontWeight"@.len());
            reveal_strlit("rounded");
            assert("textWrap"@.len() != "rounded"@.len());
            reveal_strlit("roundedTL");
            assert("textWrap"@.len() != "roundedTL"@.len());
            reveal_strlit("roundedTR");
            assert("textWrap"@.len() != "roundedTR"@.len());
            reveal_strlit("roundedBR");
            assert("textWrap"@.len() != "roundedBR"@.len());
            reveal_strlit("roundedBL");
            assert("textWrap"@.len() != "roundedBL"@.len());
            reveal_strlit("border");
            assert("textWrap"@.len() != "border"@.len());
            reveal_strlit("borderTop");
            assert("textWrap"@.len() != "borderTop"@.len());
            reveal_strlit("borderRight");
            assert("textWrap"@.len() != "borderRight"@.len());
            reveal_strlit("borderBottom");
            assert("textWrap"@.len() != "borderBottom"@.len());
            reveal_strlit("borderLeft");
            assert("textWrap"@.len() != "borderLeft"@.len());
            reveal_strlit("borderColor");
            assert("textWrap"@.len() != "borderColor"@.len());
            reveal_strlit("opacity");
            assert("textWrap"@.len() != "opacity"@.len());
            reveal_strlit("display");
            assert("textWrap"@.len() != "display"@.len());
            reveal_strlit("cursor");
            assert("textWrap"@.len() != "cursor"@.len());
            reveal_strlit("interactive");
            assert("textWrap"@.len() != "interactive"@.len());
            reveal_strlit("visibility");
            assert("textWrap"@.len() != "visibility"@.len());
            reveal_strlit("scrollable");
            assert("textWrap"@.len() != "scrollable"@.len());
            reveal_strlit("selectable");
            assert("textWrap"@.len() != "selectable"@.len());
        },
        StyleProp::WordBreak => {
            reveal_strlit("wordBreak");
            reveal_strlit("w");
            assert("wordBreak"@.len() != "w"@.len());
            reveal_strlit("h");
            assert("wordBreak"@.len() != "h"@.len());
            reveal_strlit("minW");
            assert("wordBreak"@.len() != "minW"@.len());
            reveal_strlit("minH");
            assert("wordBreak"@.len() != "minH"@.len());
            reveal_strlit("p");
            assert("wordBreak"@.len() != "p"@.len());
            reveal_strlit("px");
            assert("wordBreak"@.len() != "px"@.len());
            reveal_strlit("py");
            assert("wordBreak"@.len() != "py"@.len());
            reveal_strlit("pt");
            assert("wordBreak"@.len() != "pt"@.len());
            reveal_strlit("pb");
            assert("wordBreak"@.len() != "pb"@.len());
            reveal_strlit("pl");
            assert("wordBreak"@.len() != "pl"@.len());
            reveal_strlit("pr");
            assert("wordBreak"@.len() != "pr"@.len());
            reveal_strlit("m");
            assert("wordBreak"@.len() != "m"@.len());
            reveal_strlit("mx");
            assert("wordBreak"@.len() != "mx"@.len());
            reveal_strlit("my");
            assert("wordBreak"@.len() != "my"@.len());
            reveal_strlit("mt");
            assert("wordBreak"@.len() != "mt"@.len());
            reveal_strlit("mb");
            assert("wordBreak"@.len() != "mb"@.len());
            reveal_strlit("ml");
            assert("wordBreak"@.len() != "ml"@.len());
            reveal_strlit("mr");
            assert("wordBreak"@.len() != "mr"@.len());
            reveal_strlit("flex");
            assert("wordBreak"@.len() != "flex"@.len());
            reveal_strlit("flexDir");
            assert("wordBreak"@.len() != "flexDir"@.len());
            reveal_strlit("flexGrow");
            assert("wordBreak"@.len() != "flexGrow"@.len());
            reveal_strlit("flexShrink");
            assert("wordBreak"@.len() != "flexShrink"@.len());
            reveal_strlit("items");
            assert("wordBreak"@.len() != "items"@.len());
            reveal_strlit("justify");
            assert("wordBreak"@.len() != "justify"@.len());
            reveal_strlit("gap");
            assert("wordBreak"@.len() != "gap"@.len());
            reveal_strlit("bg");
            assert("wordBreak"@.len() != "bg"@.len());
            reveal_strlit("color");
            assert("wordBreak"@.len() != "color"@.len());
            reveal_strlit("fontSize");
            assert("wordBreak"@.len() != "fontSize"@.len());
            reveal_strlit("fontWeight");
            assert("wordBreak"@.len() != "fontWeight"@.len());
            reveal_strlit("rounded");
            assert("wordBreak"@.len() != "rounded"@.len());
            reveal_strlit("roundedTL");
            assert("wordBreak"@[0] != "roundedTL"@[0]);
            reveal_strlit("roundedTR");
            assert("wordBreak"@[0] != "roundedTR"@[0]);
            reveal_strlit("roundedBR");
            assert("wordBreak"@[0] != "roundedBR"@[0]);
            reveal_strlit("roundedBL");
            assert("wordBreak"@[0] != "roundedBL"@[0]);
            reveal_strlit("border");
            assert("wordBreak"@.len() != "border"@.len());
            reveal_strlit("borderTop");
            assert("wordBreak"@[0] != "borderTop"@[0]);
            reveal_strlit("borderRight");
            assert("wordBreak"@.len() != "borderRight"@.len());
            reveal_strlit("borderBottom");
            assert("wordBreak"@.len() != "borderBottom"@.len());
            reveal_strlit("borderLeft");
            assert("wordBreak"@.len() != "borderLeft"@.len());
            reveal_strlit("borderColor");
            assert("wordBreak"@.len() != "borderColor"@.len());
            reveal_strlit("opacity");
            assert("wordBreak"@.len() != "opacity"@.len());
            reveal_strlit("display");
            assert("wordBreak"@.len() != "display"@.len());
            reveal_strlit("cursor");
            assert("wordBreak"@.len() != "cursor"@.len());
            reveal_strlit("interactive");
            assert("wordBreak"@.len() != "interactive"@.len());
            reveal_strlit("visibility");
            assert("wordBreak"@.len() != "visibility"@.len());
            reveal_strlit("scrollable");
            assert("wordBreak"@.len() != "scrollable"@.len());
            reveal_strlit("selectable");
            assert("wordBreak"@.len() != "selectable"@.len());
            reveal_strlit("textWrap");
            assert("wordBreak"@.len() != "textWrap"@.len());
        },
        StyleProp::Position => {
            reveal_strlit("position");
            reveal_strlit("w");
            assert("position"@.len() != "w"@.len());
            reveal_strlit("h");
            assert("position"@.len() != "h"@.len());
            reveal_strlit("minW");
            assert("position"@.len() != "minW"@.len());
            reveal_strlit("minH");
            assert("position"@.len() != "minH"@.len());
            reveal_strlit("p");
            assert("position"@.len() != "p"@.len());
            reveal_strlit("px");
            assert("position"@.len() != "px"@.len());
            reveal_strlit("py");
            assert("position"@.len() != "py"@.len());
            reveal_strlit("pt");
            assert("position"@.len() != "pt"@.len());
            reveal_strlit("pb");
            assert("position"@.len() != "pb"@.len());
            reveal_strlit("pl");
            assert("position"@.len() != "pl"@.len());
            reveal_strlit("pr");
            assert("position"@.len() != "pr"@.len());
            reveal_strlit("m");
            assert("position"@.len() != "m"@.len());
            reveal_strlit("mx");
            assert("position"@.len() != "mx"@.len());
            reveal_strlit("my");
            assert("position"@.len() != "my"@.len());
            reveal_strlit("mt");
            assert("position"@.len() != "mt"@.len());
            reveal_strlit("mb");
            assert("position"@.len() != "mb"@.len());
            reveal_strlit("ml");
            assert("position"@.len() != "ml"@.len());
            reveal_strlit("mr");
            assert("position"@.len() != "mr"@.len());
            reveal_strlit("flex");
            assert("position"@.len() != "flex"@.len());
            reveal_strlit("flexDir");
            assert("position"@.len() != "flexDir"@.len());
            reveal_strlit("flexGrow");
            assert("position"@[0] != "flexGrow"@[0]);
            reveal_strlit("flexShrink");
            assert("position"@.len() != "flexShrink"@.len());
            reveal_strlit("items");
            assert("position"@.len() != "items"@.len());
            reveal_strlit("justify");
            assert("position"@.len() != "justify"@.len());
            reveal_strlit("gap");
            assert("position"@.len() != "gap"@.len());
            reveal_strlit("bg");
            assert("position"@.len() != "bg"@.len());
            reveal_strlit("color");
            assert("position"@.len() != "color"@.len());
            reveal_strlit("fontSize");
            assert("position"@[0] != "fontSize"@[0]);
            reveal_strlit("fontWeight");
            assert("position"@.len() != "fontWeight"@.len());
            reveal_strlit("rounded");
            assert("position"@.len() != "rounded"@.len());
            reveal_strlit("roundedTL");
            assert("position"@.len() != "roundedTL"@.len());
            reveal_strlit("roundedTR");
            assert("position"@.len() != "roundedTR"@.len());
            reveal_strlit("roundedBR");
            assert("position"@.len() != "roundedBR"@.len());
            reveal_strlit("roundedBL");
            assert("position"@.len() != "roundedBL"@.len());
            reveal_strlit("border");
            assert("position"@.len() != "border"@.len());
            reveal_strlit("borderTop");
            assert("position"@.len() != "borderTop"@.len());
            reveal_strlit("borderRight");
            assert("position"@.len() != "borderRight"@.len());
            reveal_strlit("borderBottom");
            assert("position"@.len() != "borderBottom"@.len());
            reveal_strlit("borderLeft");
            assert("position"@.len() != "borderLeft"@.len());
            reveal_strlit("borderColor");
            assert("position"@.len() != "borderColor"@.len());
            reveal_strlit("opacity");
            assert("position"@.len() != "opacity"@.len());
            reveal_strlit("display");
            assert("position"@.len() != "display"@.len());
            reveal_strlit("cursor");
            assert("position"@.len() != "cursor"@.len());
            reveal_strlit("interactive");
            assert("position"@.len() != "interactive"@.len());
            reveal_strlit("visibility");
            assert("position"@.len() != "visibility"@.len());
            reveal_strlit("scrollable");
            assert("position"@.len() != "scrollable"@.len());
            reveal_strlit("selectable");
            assert("position"@.len() != "selectable"@.len());
            reveal_strlit("textWrap");
            assert("position"@[0] != "textWrap"@[0]);
            reveal_strlit("wordBreak");
            assert("position"@.len() != "wordBreak"@.len());
        },
        StyleProp::Top => {
            reveal_strlit("top");
            reveal_strlit("w");
            assert("top"@.len() != "w"@.len());
            reveal_strlit("h");
            assert("top"@.len() != "h"@.len());
            reveal_strlit("minW");
            assert("top"@.len() != "minW"@.len());
            reveal_strlit("minH");
            assert("top"@.len() != "minH"@.len());
            reveal_strlit("p");
            assert("top"@.len() != "p"@.len());
            reveal_strlit("px");
            assert("top"@.len() != "px"@.len());
            reveal_strlit("py");
            assert("top"@.len() != "py"@.len());
            reveal_strlit("pt");
            assert("top"@.len() != "pt"@.len());
            reveal_strlit("pb");
            assert("top"@.len() != "pb"@.len());
            reveal_strlit("pl");
            assert("top"@.len() != "pl"@.len());
            reveal_strlit("pr");
            assert("top"@.len() != "pr"@.len());
            reveal_strlit("m");
            assert("top"@.len() != "m"@.len());
            reveal_strlit("mx");
            assert("top"@.len() != "mx"@.len());
            reveal_strlit("my");
            assert("top"@.len() != "my"@.len());
            reveal_strlit("mt");
            assert("top"@.len() != "mt"@.len());
            reveal_strlit("mb");
            assert("top"@.len() != "mb"@.len());
            reveal_strlit("ml");
            assert("top"@.len() != "ml"@.len());
            reveal_strlit("mr");
            assert("top"@.len() != "mr"@.len());
            reveal_strlit("flex");
            assert("top"@.len() != "flex"@.len());
            reveal_strlit("flexDir");
            assert("top"@.len() != "flexDir"@.len());
            reveal_strlit("flexGrow");
            assert("top"@.len() != "flexGrow"@.len());
            reveal_strlit("flexShrink");
            assert("top"@.len() != "flexShrink"@.len());
            reveal_strlit("items");
            assert("top"@.len() != "items"@.len());
            reveal_strlit("justify");
            assert("top"@.len() != "justify"@.len());
            reveal_strlit("gap");
            assert("top"@[0] != "gap"@[0]);
            reveal_strlit("bg");
            assert("top"@.len() != "bg"@.len());
            reveal_strlit("color");
            assert("top"@.len() != "color"@.len());
            reveal_strlit("fontSize");
            assert("top"@.len() != "fontSize"@.len());
            reveal_strlit("fontWeight");
            assert("top"@.len() != "fontWeight"@.len());
            reveal_strlit("rounded");
            assert("top"@.len() != "rounded"@.len());
            reveal_strlit("roundedTL");
            assert("top"@.len() != "roundedTL"@.len());
            reveal_strlit("roundedTR");
            assert("top"@.len() != "roundedTR"@.len());
            reveal_strlit("roundedBR");
            assert("top"@.len() != "roundedBR"@.len());
            reveal_strlit("roundedBL");
            assert("top"@.len() != "roundedBL"@.len());
            reveal_strlit("border");
            assert("top"@.len() != "border"@.len());
            reveal_strlit("borderTop");
            assert("top"@.len() != "borderTop"@.len());
            reveal_strlit("borderRight");
            assert("top"@.len() != "borderRight"@.len());
            reveal_strlit("borderBottom");
            assert("top"@.len() != "borderBottom"@.len());
            reveal_strlit("borderLeft");
            assert("top"@.len() != "borderLeft"@.len());
            reveal_strlit("borderColor");
            assert("top"@.len() != "borderColor"@.len());
            reveal_strlit("opacity");
            assert("top"@.len() != "opacity"@.len());
            reveal_strlit("display");
            assert("top"@.len() != "display"@.len());
            reveal_strlit("cursor");
            assert("top"@.len() != "cursor"@.len());
            reveal_strlit("interactive");
            assert("top"@.len() != "interactive"@.len());
            reveal_strlit("visibility");
            assert("top"@.len() != "visibility"@.len());
            reveal_strlit("scrollable");
            assert("top"@.len() != "scrollable"@.len());
            reveal_strlit("selectable");
            assert("top"@.len() != "selectable"@.len());
            reveal_strlit("textWrap");
            assert("top"@.len() != "textWrap"@.len());
            reveal_strlit("wordBreak");
            assert("top"@.len() != "wordBreak"@.len());
            reveal_strlit("position");
            assert("top"@.len() != "position"@.len());
        },
        StyleProp::Right => {
            reveal_strlit("right");
            reveal_strlit("w");
            assert("right"@.len() != "w"@.len());
            reveal_strlit("h");
            assert("right"@.len() != "h"@.len());
            reveal_strlit("minW");
            assert("right"@.len() != "minW"@.len());
            reveal_strlit("minH");
            assert("right"@.len() != "minH"@.len());
            reveal_strlit("p");
            assert("right"@.len() != "p"@.len());
            reveal_strlit("px");
            assert("right"@.len() != "px"@.len());
            reveal_strlit("py");
            assert("right"@.len() != "py"@.len());
            reveal_strlit("pt");
            assert("right"@.len() != "pt"@.len());
            reveal_strlit("pb");
            assert("right"@.len() != "pb"@.len());
            reveal_strlit("pl");
            assert("right"@.len() != "pl"@.len());
            reveal_strlit("pr");
            assert("right"@.len() != "pr"@.len());
            reveal_strlit("m");
            assert("right"@.len() != "m"@.len());
            reveal_strlit("mx");
            assert("right"@.len() != "mx"@.len());
            reveal_strlit("my");
            assert("right"@.len() != "my"@.len());
            reveal_strlit("mt");
            assert("right"@.len() != "mt"@.len());
            reveal_strlit("mb");
            assert("right"@.len() != "mb"@.len());
            reveal_strlit("ml");
            assert("right"@.len() != "ml"@.len());
            reveal_strlit("mr");
            assert("right"@.len() != "mr"@.len());
            reveal_strlit("flex");
            assert("right"@.len() != "flex"@.len());
            reveal_strlit("flexDir");
            assert("right"@.len() != "flexDir"@.len());
            reveal_strlit("flexGrow");
            assert("right"@.len() != "flexGrow"@.len());
            reveal_strlit("flexShrink");
            assert("right"@.len() != "flexShrink"@.len());
            reveal_strlit("items");
            assert("right"@[0] != "items"@[0]);
            reveal_strlit("justify");
            assert("right"@.len() != "justify"@.len());
            reveal_strlit("gap");
            assert("right"@.len() != "gap"@.len());
            reveal_strlit("bg");
            assert("right"@.len() != "bg"@.len());
            reveal_strlit("color");
            assert("right"@[0] != "color"@[0]);
            reveal_strlit("fontSize");
            assert("right"@.len() != "fontSize"@.len());
            reveal_strlit("fontWeight");
            assert("right"@.len() != "fontWeight"@.len());
            reveal_strlit("rounded");
            assert("right"@.len() != "rounded"@.len());
            reveal_strlit("roundedTL");
            assert("right"@.len() != "roundedTL"@.len());
            reveal_strlit("roundedTR");
            assert("right"@.len() != "roundedTR"@.len());
            reveal_strlit("roundedBR");
            assert("right"@.len() != "roundedBR"@.len());
            reveal_strlit("roundedBL");
            assert("right"@.len() != "roundedBL"@.len());
            reveal_strlit("border");
            assert("right"@.len() != "border"@.len());
            reveal_strlit("borderTop");
            assert("right"@.len() != "borderTop"@.len());
            reveal_strlit("borderRight");
            assert("right"@.len() != "borderRight"@.len());
            reveal_strlit("borderBottom");
            assert("right"@.len() != "borderBottom"@.len());
            reveal_strlit("borderLeft");
            assert("right"@.len() != "borderLeft"@.len());
            reveal_strlit("borderColor");
            assert("right"@.len() != "borderColor"@.len());
            reveal_strlit("opacity");
            assert("right"@.len() != "opacity"@.len());
            reveal_strlit("display");
            assert("right"@.len() != "display"@.len());
            reveal_strlit("cursor");
            assert("right"@.len() != "cursor"@.len());
            reveal_strlit("interactive");
            assert("right"@.len() != "interactive"@.len());
            reveal_strlit("visibility");
            assert("right"@.len() != "visibility"@.len());
            reveal_strlit("scrollable");
            assert("right"@.len() != "scrollable"@.len());
            reveal_strlit("selectable");
            assert("right"@.len() != "selectable"@.len());
            reveal_strlit("textWrap");
            assert("right"@.len() != "textWrap"@.len());
            reveal_strlit("wordBreak");
            assert("right"@.len() != "wordBreak"@.len());
            reveal_strlit("position");
            assert("right"@.len() != "position"@.len());
            reveal_strlit("top");
            assert("right"@.len() != "top"@.len());
        },
        StyleProp::Bottom => {
            reveal_strlit("bottom");
            reveal_strlit("w");
            assert("bottom"@.len() != "w"@.len());
            reveal_strlit("h");
            assert("bottom"@.len() != "h"@.len());
            reveal_strlit("minW");
            assert("bottom"@.len() != "minW"@.len());
            reveal_strlit("minH");
            assert("bottom"@.len() != "minH"@.len());
            reveal_strlit("p");
            assert("bottom"@.len() != "p"@.len());
            reveal_strlit("px");
            assert("bottom"@.len() != "px"@.len());
            reveal_strlit("py");
            assert("bottom"@.len() != "py"@.len());
            reveal_strlit("pt");
            assert("bottom"@.len() != "pt"@.len());
            reveal_strlit("pb");
            assert("bottom"@.len() != "pb"@.len());
            reveal_strlit("pl");
            assert("bottom"@.len() != "pl"@.len());
            reveal_strlit("pr");
            assert("bottom"@.len() != "pr"@.len());
            reveal_strlit("m");
            assert("bottom"@.len() != "m"@.len());
            reveal_strlit("mx");
            assert("bottom"@.len() != "mx"@.len());
            reveal_strlit("my");
            assert("bottom"@.len() != "my"@.len());
            reveal_strlit("mt");
            assert("bottom"@.len() != "mt"@.len());
            reveal_strlit("mb");
            assert("bottom"@.len() != "mb"@.len());
            reveal_strlit("ml");
            assert("bottom"@.len() != "ml"@.len());
            reveal_strlit("mr");
            assert("bottom"@.len() != "mr"@.len());
            reveal_strlit("flex");
            assert("bottom"@.len() != "flex"@.len());
            reveal_strlit("flexDir");
            assert("bottom"@.len() != "flexDir"@.len());
            reveal_strlit("flexGrow");
            assert("bottom"@.len() != "flexGrow"@.len());
            reveal_strlit("flexShrink");
            assert("bottom"@.len() != "flexShrink"@.len());
            reveal_strlit("items");
            assert("bottom"@.len() != "items"@.len());
            reveal_strlit("justify");
            assert("bottom"@.len() != "justify"@.len());
            reveal_strlit("gap");
            assert("bottom"@.len() != "gap"@.len());
            reveal_strlit("bg");
            assert("bottom"@.len() != "bg"@.len());
            reveal_strlit("color");
            assert("bottom"@.len() != "color"@.len());
            reveal_strlit("fontSize");
            assert("bottom"@.len() != "fontSize"@.len());
            reveal_strlit("fontWeight");
            assert("bottom"@.len() != "fontWeight"@.len());
            reveal_strlit("rounded");
            assert("bottom"@.len() != "rounded"@.len());
            reveal_strlit("roundedTL");
            assert("bottom"@.len() != "roundedTL"@.len());
            reveal_strlit("roundedTR");
            assert("bottom"@.len() != "roundedTR"@.len());
            reveal_strlit("roundedBR");
            assert("bottom"@.len() != "roundedBR"@.len());
            reveal_strlit("roundedBL");
            assert("bottom"@.len() != "roundedBL"@.len());
            reveal_strlit("border");
            assert("bottom"@[2] != "border"@[2]);
            reveal_strlit("borderTop");
            assert("bottom"@.len() != "borderTop"@.len());
            reveal_strlit("borderRight");
            assert("bottom"@.len() != "borderRight"@.len());
            reveal_strlit("borderBottom");
            assert("bottom"@.len() != "borderBottom"@.len());
            reveal_strlit("borderLeft");
            assert("bottom"@.len() != "borderLeft"@.len());
            reveal_strlit("borderColor");
            assert("bottom"@.len() != "borderColor"@.len());
            reveal_strlit("opacity");
            assert("bottom"@.len() != "opacity"@.len());
            reveal_strlit("display");
            assert("bottom"@.len() != "display"@.len());
            reveal_strlit("cursor");
            assert("bottom"@[0] != "cursor"@[0]);
            reveal_strlit("interactive");
            assert("bottom"@.len() != "interactive"@.len());
            reveal_strlit("visibility");
            assert("bottom"@.len() != "visibility"@.len());
            reveal_strlit("scrollable");
            assert("bottom"@.len() != "scrollable"@.len());
            reveal_strlit("selectable");
            assert("bottom"@.len() != "selectable"@.len());
            reveal_strlit("textWrap");
            assert("bottom"@.len() != "textWrap"@.len());
            reveal_strlit("wordBreak");
            assert("bottom"@.len() != "wordBreak"@.len());
            reveal_strlit("position");
            assert("bottom"@.len() != "position"@.len());
            reveal_strlit("top");
            assert("bottom"@.len() != "top"@.len());
            reveal_strlit("right");
            assert("bottom"@.len() != "right"@.len());
        },
        StyleProp::Left => {
            reveal_strlit("left");
            reveal_strlit("w");
            assert("left"@.len() != "w"@.len());
            reveal_strlit("h");
            assert("left"@.len() != "h"@.len());
            reveal_strlit("minW");
            assert("left"@[0] != "minW"@[0]);
            reveal_strlit("minH");
            assert("left"@[0] != "minH"@[0]);
            reveal_strlit("p");
            assert("left"@.len() != "p"@.len());
            reveal_strlit("px");
            assert("left"@.len() != "px"@.len());
            reveal_strlit("py");
            assert("left"@.len() != "py"@.len());
            reveal_strlit("pt");
            assert("left"@.len() != "pt"@.len());
            reveal_strlit("pb");
            assert("left"@.len() != "pb"@.len());
            reveal_strlit("pl");
            assert("left"@.len() != "pl"@.len());
            reveal_strlit("pr");
            assert("left"@.len() != "pr"@.len());
            reveal_strlit("m");
            assert("left"@.len() != "m"@.len());
            reveal_strlit("mx");
            assert("left"@.len() != "mx"@.len());
            reveal_strlit("my");
            assert("left"@.len() != "my"@.len());
            reveal_strlit("mt");
            assert("left"@.len() != "mt"@.len());
            reveal_strlit("mb");
            assert("left"@.len() != "mb"@.len());
            reveal_strlit("ml");
            assert("left"@.len() != "ml"@.len());
            reveal_strlit("mr");
            assert("left"@.len() != "mr"@.len());
            reveal_strlit("flex");
            assert("left"@[0] != "flex"@[0]);
            reveal_strlit("flexDir");
            assert("left"@.len() != "flexDir"@.len());
            reveal_strlit("flexGrow");
            assert("left"@.len() != "flexGrow"@.len());
            reveal_strlit("flexShrink");
            assert("left"@.len() != "flexShrink"@.len());
            reveal_strlit("items");
            assert("left"@.len() != "items"@.len());
            reveal_strlit("justify");
            assert("left"@.len() != "justify"@.len());
            reveal_strlit("gap");
            assert("left"@.len() != "gap"@.len());
            reveal_strlit("bg");
            assert("left"@.len() != "bg"@.len());
            reveal_strlit("color");
            assert("left"@.len() != "color"@.len());
            reveal_strlit("fontSize");
            assert("left"@.len() != "fontSize"@.len());
            reveal_strlit("fontWeight");
            assert("left"@.len() != "fontWeight"@.len());
            reveal_strlit("rounded");
            assert("left"@.len() != "rounded"@.len());
            reveal_strlit("roundedTL");
            assert("left"@.len() != "roundedTL"@.len());
            reveal_strlit("roundedTR");
            assert("left"@.len() != "roundedTR"@.len());
            reveal_strlit("roundedBR");
            assert("left"@.len() != "roundedBR"@.len());
            reveal_strlit("roundedBL");
            assert("left"@.len() != "roundedBL"@.len());
            reveal_strlit("border");
            assert("left"@.len() != "border"@.len());
            reveal_strlit("borderTop");
            assert("left"@.len() != "borderTop"@.len());
            reveal_strlit("borderRight");
            assert("left"@.len() != "borderRight"@.len());
            reveal_strlit("borderBottom");
            assert("left"@.len() != "borderBottom"@.len());
            reveal_strlit("borderLeft");
            assert("left"@.len() != "borderLeft"@.len());
            reveal_strlit("borderColor");
            assert("left"@.len() != "borderColor"@.len());
            reveal_strlit("opacity");
            assert("left"@.len() != "opacity"@.len());
            reveal_strlit("display");
            assert("left"@.len() != "display"@.len());
            reveal_strlit("cursor");
            assert("left"@.len() != "cursor"@.len());
            reveal_strlit("interactive");
            assert("left"@.len() != "interactive"@.len());
            reveal_strlit("visibility");
            assert("left"@.len() != "visibility"@.len());
            reveal_strlit("scrollable");
            assert("left"@.len() != "scrollable"@.len());
            reveal_strlit("selectable");
            assert("left"@.len() != "selectable"@.len());
            reveal_strlit("textWrap");
            assert("left"@.len() != "textWrap"@.len());
            reveal_strlit("wordBreak");
            assert("left"@.len() != "wordBreak"@.len());
            reveal_strlit("position");
            assert("left"@.len() != "position"@.len());
            reveal_strlit("top");
            assert("left"@.len() != "top"@.len());
            reveal_strlit("right");
            assert("left"@.len() != "right"@.len());
            reveal_strlit("bottom");
            assert("left"@.len() != "bottom"@.len());
        },
        StyleProp::TranslateX => {
            reveal_strlit("translateX");
            reveal_strlit("w");
            assert("translateX"@.len() != "w"@.len());
            reveal_strlit("h");
            assert("translateX"@.len() != "h"@.len());
            reveal_strlit("minW");
            assert("translateX"@.len() != "minW"@.len());
            reveal_strlit("minH");
            assert("translateX"@.len() != "minH"@.len());
            reveal_strlit("p");
            assert("translateX"@.len() != "p"@.len());
            reveal_strlit("px");
            assert("translateX"@.len() != "px"@.len());
            reveal_strlit("py");
            assert("translateX"@.len() != "py"@.len());
            reveal_strlit("pt");
            assert("translateX"@.len() != "pt"@.len());
            reveal_strlit("pb");
            assert("translateX"@.len() != "pb"@.len());
            reveal_strlit("pl");
            assert("translateX"@.len() != "pl"@.len());
            reveal_strlit("pr");
            assert("translateX"@.len() != "pr"@.len());
            reveal_strlit("m");
            assert("translateX"@.len() != "m"@.len());
            reveal_strlit("mx");
            assert("translateX"@.len() != "mx"@.len());
            reveal_strlit("my");
            assert("translateX"@.len() != "my"@.len());
            reveal_strlit("mt");
            assert("translateX"@.len() != "mt"@.len());
            reveal_strlit("mb");
            assert("translateX"@.len() != "mb"@.len());
            reveal_strlit("ml");
            assert("translateX"@.len() != "ml"@.len());
            reveal_strlit("mr");
            assert("translateX"@.len() != "mr"@.len());
            reveal_strlit("flex");
            assert("translateX"@.len() != "flex"@.len());
            reveal_strlit("flexDir");
            assert("translateX"@.len() != "flexDir"@.len());
            reveal_strlit("flexGrow");
            assert("translateX"@.len() != "flexGrow"@.len());
            reveal_strlit("flexShrink");
            assert("translateX"@[0] != "flexShrink"@[0]);
            reveal_strlit("items");
            assert("translateX"@.len() != "items"@.len());
            reveal_strlit("justify");
            assert("translateX"@.len() != "justify"@.len());
            reveal_strlit("gap");
            assert("translateX"@.len() != "gap"@.len());
            reveal_strlit("bg");
            assert("translateX"@.len() != "bg"@.len());
            reveal_strlit("color");
            assert("translateX"@.len() != "color"@.len());
            reveal_strlit("fontSize");
            assert("translateX"@.len() != "fontSize"@.len());
            reveal_strlit("fontWeight");
            assert("translateX"@[0] != "fontWeight"@[0]);
            reveal_strlit("rounded");
            assert("translateX"@.len() != "rounded"@.len());
            reveal_strlit("roundedTL");
            assert("translateX"@.len() != "roundedTL"@.len());
            reveal_strlit("roundedTR");
            assert("translateX"@.len() != "roundedTR"@.len());
            reveal_strlit("roundedBR");
            assert("translateX"@.len() != "roundedBR"@.len());
            reveal_strlit("roundedBL");
            assert("translateX"@.len() != "roundedBL"@.len());
            reveal_strlit("border");
            assert("translateX"@.len() != "border"@.len());
            reveal_strlit("borderTop");
            assert("translateX"@.len() != "borderTop"@.len());
            reveal_strlit("borderRight");
            assert("translateX"@.len() != "borderRight"@.len());
            reveal_strlit("borderBottom");
            assert("translateX"@.len() != "borderBottom"@.len());
            reveal_strlit("borderLeft");
            assert("translateX"@[0] != "borderLeft"@[0]);
            reveal_strlit("borderColor");
            assert("translateX"@.len() != "borderColor"@.len());
            reveal_strlit("opacity");
            assert("translateX"@.len() != "opacity"@.len());
            reveal_strlit("display");
            assert("translateX"@.len() != "display"@.len());
            reveal_strlit("cursor");
            assert("translateX"@.len() != "cursor"@.len());
            reveal_strlit("interactive");
            assert("translateX"@.len() != "interactive"@.len());
            reveal_strlit("visibility");
            assert("translateX"@[0] != "visibility"@[0]);
            reveal_strlit("scrollable");
            assert("translateX"@[0] != "scrollable"@[0]);
            reveal_strlit("selectable");
            assert("translateX"@[0] != "selectable"@[0]);
            reveal_strlit("textWrap");
            assert("translateX"@.len() != "textWrap"@.len());
            reveal_strlit("wordBreak");
            assert("translateX"@.len() != "wordBreak"@.len());
            reveal_strlit("position");
            assert("translateX"@.len() != "position"@.len());
            reveal_strlit("top");
            assert("translateX"@.len() != "top"@.len());
            reveal_strlit("right");
            assert("translateX"@.len() != "right"@.len());
            reveal_strlit("bottom");
            assert("translateX"@.len() != "bottom"@.len());
            reveal_strlit("left");
            assert("translateX"@.len() != "left"@.len());
        },
        StyleProp::TranslateY => {
            reveal_strlit("translateY");
            reveal_strlit("w");
            assert("translateY"@.len() != "w"@.len());
            reveal_strlit("h");
            assert("translateY"@.len() != "h"@.len());
            reveal_strlit("minW");
            assert("translateY"@.len() != "minW"@.len());
            reveal_strlit("minH");
            assert("translateY"@.len() != "minH"@.len());
            reveal_strlit("p");
            assert("translateY"@.len() != "p"@.len());
            reveal_strlit("px");
            assert("translateY"@.len() != "px"@.len());
            reveal_strlit("py");
            assert("translateY"@.len() != "py"@.len());
            reveal_strlit("pt");
            assert("translateY"@.len() != "pt"@.len());
            reveal_strlit("pb");
            assert("translateY"@.len() != "pb"@.len());
            reveal_strlit("pl");
            assert("translateY"@.len() != "pl"@.len());
            reveal_strlit("pr");
            assert("translateY"@.len() != "pr"@.len());
            reveal_strlit("m");
            assert("translateY"@.len() != "m"@.len());
            reveal_strlit("mx");
            assert("translateY"@.len() != "mx"@.len());
            reveal_strlit("my");
            assert("translateY"@.len() != "my"@.len());
            reveal_strlit("mt");
            assert("translateY"@.len() != "mt"@.len());
            reveal_strlit("mb");
            assert("translateY"@.len() != "mb"@.len());
            reveal_strlit("ml");
            assert("translateY"@.len() != "ml"@.len());
            reveal_strlit("mr");
            assert("translateY"@.len() != "mr"@.len());
            reveal_strlit("flex");
            assert("translateY"@.len() != "flex"@.len());
            reveal_strlit("flexDir");
            assert("translateY"@.len() != "flexDir"@.len());
            reveal_strlit("flexGrow");
            assert("translateY"@.len() != "flexGrow"@.len());
            reveal_strlit("flexShrink");
            assert("translateY"@[0] != "flexShrink"@[0]);
            reveal_strlit("items");
            assert("translateY"@.len() != "items"@.len());
            reveal_strlit("justify");
            assert("translateY"@.len() != "justify"@.len());
            reveal_strlit("gap");
            assert("translateY"@.len() != "gap"@.len());
            reveal_strlit("bg");
            assert("translateY"@.len() != "bg"@.len());
            reveal_strlit("color");
            assert("translateY"@.len() != "color"@.len());
            reveal_strlit("fontSize");
            assert("translateY"@.len() != "fontSize"@.len());
            reveal_strlit("fontWeight");
            assert("translateY"@[0] != "fontWeight"@[0]);
            reveal_strlit("rounded");
            assert("translateY"@.len() != "rounded"@.len());
            reveal_strlit("roundedTL");
            assert("translateY"@.len() != "roundedTL"@.len());
            reveal_strlit("roundedTR");
            assert("translateY"@.len() != "roundedTR"@.len());
            reveal_strlit("roundedBR");
            assert("translateY"@.len() != "roundedBR"@.len());
            reveal_strlit("roundedBL");
            assert("translateY"@.len() != "roundedBL"@.len());
            reveal_strlit("border");
            assert("translateY"@.len() != "border"@.len());
            reveal_strlit("borderTop");
            assert("translateY"@.len() != "borderTop"@.len());
            reveal_strlit("borderRight");
            assert("translateY"@.len() != "borderRight"@.len());
            reveal_strlit("borderBottom");
            assert("translateY"@.len() != "borderBottom"@.len());
            reveal_strlit("borderLeft");
            assert("translateY"@[0] != "borderLeft"@[0]);
            reveal_strlit("borderColor");
            assert("translateY"@.len() != "borderColor"@.len());
            reveal_strlit("opacity");
            assert("translateY"@.len() != "opacity"@.len());
            reveal_strlit("display");
            assert("translateY"@.len() != "display"@.len());
            reveal_strlit("cursor");
            assert("translateY"@.len() != "cursor"@.len());
            reveal_strlit("interactive");
            assert("translateY"@.len() != "interactive"@.len());
            reveal_strlit("visibility");
            assert("translateY"@[0] != "visibility"@[0]);
            reveal_strlit("scrollable");
            assert("translateY"@[0] != "scrollable"@[0]);
            reveal_strlit("selectable");
            assert("translateY"@[0] != "selectable"@[0]);
            reveal_strlit("textWrap");
            assert("translateY"@.len() != "textWrap"@.len());
            reveal_strlit("wordBreak");
            assert("translateY"@.len() != "wordBreak"@.len());
            reveal_strlit("position");
            assert("translateY"@.len() != "position"@.len());
            reveal_strlit("top");
            assert("translateY"@.len() != "top"@.len());
            reveal_strlit("right");
            assert("translateY"@.len() != "right"@.len());
            reveal_strlit("bottom");
            assert("translateY"@.len() != "bottom"@.len());
            reveal_strlit("left");
            assert("translateY"@.len() != "left"@.len());
            reveal_strlit("translateX");
            assert("translateY"@[9] != "translateX"@[9]);
        },
        StyleProp::Rotate => {
            reveal_strlit("rotate");
            reveal_strlit("w");
            assert("rotate"@.len() != "w"@.len());
            reveal_strlit("h");
            assert("rotate"@.len() != "h"@.len());
            reveal_strlit("minW");
            assert("rotate"@.len() != "minW"@.len());
            reveal_strlit("minH");
            assert("rotate"@.len() != "minH"@.len());
            reveal_strlit("p");
            assert("rotate"@.len() != "p"@.len());
            reveal_strlit("px");
            assert("rotate"@.len() != "px"@.len());
            reveal_strlit("py");
            assert("rotate"@.len() != "py"@.len());
            reveal_strlit("pt");
            assert("rotate"@.len() != "pt"@.len());
            reveal_strlit("pb");
            assert("rotate"@.len() != "pb"@.len());
            reveal_strlit("pl");
            assert("rotate"@.len() != "pl"@.len());
            reveal_strlit("pr");
            assert("rotate"@.len() != "pr"@.len());
            reveal_strlit("m");
            assert("rotate"@.len() != "m"@.len());
            reveal_strlit("mx");
            assert("rotate"@.len() != "mx"@.len());
            reveal_strlit("my");
            assert("rotate"@.len() != "my"@.len());
            reveal_strlit("mt");
            assert("rotate"@.len() != "mt"@.len());
            reveal_strlit("mb");
            assert("rotate"@.len() != "mb"@.len());
            reveal_strlit("ml");
            assert("rotate"@.len() != "ml"@.len());
            reveal_strlit("mr");
            assert("rotate"@.len() != "mr"@.len());
            reveal_strlit("flex");
            assert("rotate"@.len() != "flex"@.len());
            reveal_strlit("flexDir");
            assert("rotate"@.len() != "flexDir"@.len());
            reveal_strlit("flexGrow");
            assert("rotate"@.len() != "flexGrow"@.len());
            reveal_strlit("flexShrink");
            assert("rotate"@.len() != "flexShrink"@.len());
            reveal_strlit("items");
            assert("rotate"@.len() != "items"@.len());
            reveal_strlit("justify");
            assert("rotate"@.len() != "justify"@.len());
            reveal_strlit("gap");
            assert("rotate"@.len() != "gap"@.len());
            reveal_strlit("bg");
            assert("rotate"@.len() != "bg"@.len());
            reveal_strlit("color");
            assert("rotate"@.len() != "color"@.len());
            reveal_strlit("fontSize");
            assert("rotate"@.len() != "fontSize"@.len());
            reveal_strlit("fontWeight");
            assert("rotate"@.len() != "fontWeight"@.len());
            reveal_strlit("rounded");
            assert("rotate"@.len() != "rounded"@.len());
            reveal_strlit("roundedTL");
            assert("rotate"@.len() != "roundedTL"@.len());
            reveal_strlit("roundedTR");
            assert("rotate"@.len() != "roundedTR"@.len());
            reveal_strlit("roundedBR");
            assert("rotate"@.len() != "roundedBR"@.len());
            reveal_strlit("roundedBL");
            assert("rotate"@.len() != "roundedBL"@.len());
            reveal_strlit("border");
            assert("rotate"@[0] != "border"@[0]);
            reveal_strlit("borderTop");
            assert("rotate"@.len() != "borderTop"@.len());
            reveal_strlit("borderRight");
            assert("rotate"@.len() != "borderRight"@.len());
            reveal_strlit("borderBottom");
            assert("rotate"@.len() != "borderBottom"@.len());
            reveal_strlit("borderLeft");
            assert("rotate"@.len() != "borderLeft"@.len());
            reveal_strlit("borderColor");
            assert("rotate"@.len() != "borderColor"@.len());
            reveal_strlit("opacity");
            assert("rotate"@.len() != "opacity"@.len());
            reveal_strlit("display");
            assert("rotate"@.len() != "display"@.len());
            reveal_strlit("cursor");
            assert("rotate"@[0] != "cursor"@[0]);
            reveal_strlit("interactive");
            assert("rotate"@.len() != "interactive"@.len());
            reveal_strlit("visibility");
            assert("rotate"@.len() != "visibility"@.len());
            reveal_strlit("scrollable");
            assert("rotate"@.len() != "scrollable"@.len());
            reveal_strlit("selectable");
            assert("rotate"@.len() != "selectable"@.len());
            reveal_strlit("textWrap");
            assert("rotate"@.len() != "textWrap"@.len());
            reveal_strlit("wordBreak");
            assert("rotate"@.len() != "wordBreak"@.len());
            reveal_strlit("position");
            assert("rotate"@.len() != "position"@.len());
            reveal_strlit("top");
            assert("rotate"@.len() != "top"@.len());
            reveal_strlit("right");
            assert("rotate"@.len() != "right"@.len());
            reveal_strlit("bottom");
            assert("rotate"@[0] != "bottom"@[0]);
            reveal_strlit("left");
            assert("rotate"@.len() != "left"@.len());
            reveal_strlit("translateX");
            assert("rotate"@.len() != "translateX"@.len());
            reveal_strlit("translateY");
            assert("rotate"@.len() != "translateY"@.len());
        },
        StyleProp::Scale => {
            reveal_strlit("scale");
            reveal_strlit("w");
            assert("scale"@.len() != "w"@.len());
            reveal_strlit("h");
            assert("scale"@.len() != "h"@.len());
            reveal_strlit("minW");
            assert("scale"@.len() != "minW"@.len());
            reveal_strlit("minH");
            assert("scale"@.len() != "minH"@.len());
            reveal_strlit("p");
            assert("scale"@.len() != "p"@.len());
            reveal_strlit("px");
            assert("scale"@.len() != "px"@.len());
            reveal_strlit("py");
            assert("scale"@.len() != "py"@.len());
            reveal_strlit("pt");
            assert("scale"@.len() != "pt"@.len());
            reveal_strlit("pb");
            assert("scale"@.len() != "pb"@.len());
            reveal_strlit("pl");
            assert("scale"@.len() != "pl"@.len());
            reveal_strlit("pr");
            assert("scale"@.len() != "pr"@.len());
            reveal_strlit("m");
            assert("scale"@.len() != "m"@.len());
            reveal_strlit("mx");
            assert("scale"@.len() != "mx"@.len());
            reveal_strlit("my");
            assert("scale"@.len() != "my"@.len());
            reveal_strlit("mt");
            assert("scale"@.len() != "mt"@.len());
            reveal_strlit("mb");
            assert("scale"@.len() != "mb"@.len());
            reveal_strlit("ml");
            assert("scale"@.len() != "ml"@.len());
            reveal_strlit("mr");
            assert("scale"@.len() != "mr"@.len());
            reveal_strlit("flex");
            assert("scale"@.len() != "flex"@.len());
            reveal_strlit("flexDir");
            assert("scale"@.len() != "flexDir"@.len());
            reveal_strlit("flexGrow");
            assert("scale"@.len() != "flexGrow"@.len());
            reveal_strlit("flexShrink");
            assert("scale"@.len() != "flexShrink"@.len());
            reveal_strlit("items");
            assert("scale"@[0] != "items"@[0]);
            reveal_strlit("justify");
            assert("scale"@.len() != "justify"@.len());
            reveal_strlit("gap");
            assert("scale"@.len() != "gap"@.len());
            reveal_strlit("bg");
            assert("scale"@.len() != "bg"@.len());
            reveal_strlit("color");
            assert("scale"@[0] != "color"@[0]);
            reveal_strlit("fontSize");
            assert("scale"@.len() != "fontSize"@.len());
            reveal_strlit("fontWeight");
            assert("scale"@.len() != "fontWeight"@.len());
            reveal_strlit("rounded");
            assert("scale"@.len() != "rounded"@.len());
            reveal_strlit("roundedTL");
            assert("scale"@.len() != "roundedTL"@.len());
            reveal_strlit("roundedTR");
            assert("scale"@.len() != "roundedTR"@.len());
            reveal_strlit("roundedBR");
            assert("scale"@.len() != "roundedBR"@.len());
            reveal_strlit("roundedBL");
            assert("scale"@.len() != "roundedBL"@.len());
            reveal_strlit("border");
            assert("scale"@.len() != "border"@.len());
            reveal_strlit("borderTop");
            assert("scale"@.len() != "borderTop"@.len());
            reveal_strlit("borderRight");
            assert("scale"@.len() != "borderRight"@.len());
            reveal_strlit("borderBottom");
            assert("scale"@.len() != "borderBottom"@.len());
            reveal_strlit("borderLeft");
            assert("scale"@.len() != "borderLeft"@.len());
            reveal_strlit("borderColor");
            assert("scale"@.len() != "borderColor"@.len());
            reveal_strlit("opacity");
            assert("scale"@.len() != "opacity"@.len());
            reveal_strlit("display");
            assert("scale"@.len() != "display"@.len());
            reveal_strlit("cursor");
            assert("scale"@.len() != "cursor"@.len());
            reveal_strlit("interactive");
            assert("scale"@.len() != "interactive"@.len());
            reveal_strlit("visibility");
            assert("scale"@.len() != "visibility"@.len());
            reveal_strlit("scrollable");
            assert("scale"@.len() != "scrollable"@.len());
            reveal_strlit("selectable");
            assert("scale"@.len() != "selectable"@.len());
            reveal_strlit("textWrap");
            assert("scale"@.len() != "textWrap"@.len());
            reveal_strlit("wordBreak");
            assert("scale"@.len() != "wordBreak"@.len());
            reveal_strlit("position");
            assert("scale"@.len() != "position"@.len());
            reveal_strlit("top");
            assert("scale"@.len() != "top"@.len());
            reveal_strlit("right");
            assert("scale"@[0] != "right"@[0]);
            reveal_strlit("bottom");
            assert("scale"@.len() != "bottom"@.len());
            reveal_strlit("left");
            assert("scale"@.len() != "left"@.len());
            reveal_strlit("translateX");
            assert("scale"@.len() != "translateX"@.len());
            reveal_strlit("translateY");
            assert("scale"@.len() != "translateY"@.len());
            reveal_strlit("rotate");
            assert("scale"@.len() != "rotate"@.len());
        },
        StyleProp::ScaleX => {
            reveal_strlit("scaleX");
            reveal_strlit("w");
            assert("scaleX"@.len() != "w"@.len());
            reveal_strlit("h");
            assert("scaleX"@.len() != "h"@.len());
            reveal_strlit("minW");
            assert("scaleX"@.len() != "minW"@.len());
            reveal_strlit("minH");
            assert("scaleX"@.len() != "minH"@.len());
            reveal_strlit("p");
            assert("scaleX"@.len() != "p"@.len());
            reveal_strlit("px");
            assert("scaleX"@.len() != "px"@.len());
            reveal_strlit("py");
            assert("scaleX"@.len() != "py"@.len());
            reveal_strlit("pt");
            assert("scaleX"@.len() != "pt"@.len());
            reveal_strlit("pb");
            assert("scaleX"@.len() != "pb"@.len());
            reveal_strlit("pl");
            assert("scaleX"@.len() != "pl"@.len());
            reveal_strlit("pr");
            assert("scaleX"@.len() != "pr"@.len());
            reveal_strlit("m");
            assert("scaleX"@.len() != "m"@.len());
            reveal_strlit("mx");
            assert("scaleX"@.len() != "mx"@.len());
            reveal_strlit("my");
            assert("scaleX"@.len() != "my"@.len());
            reveal_strlit("mt");
            assert("scaleX"@.len() != "mt"@.len());
            reveal_strlit("mb");
            assert("scaleX"@.len() != "mb"@.len());
            reveal_strlit("ml");
            assert("scaleX"@.len() != "ml"@.len());
            reveal_strlit("mr");
            assert("scaleX"@.len() != "mr"@.len());
            reveal_strlit("flex");
            assert("scaleX"@.len() != "flex"@.len());
            reveal_strlit("flexDir");
            assert("scaleX"@.len() != "flexDir"@.len());
            reveal_strlit("flexGrow");
            assert("scaleX"@.len() != "flexGrow"@.len());
            reveal_strlit("flexShrink");
            assert("scaleX"@.len() != "flexShrink"@.len());
            reveal_strlit("items");
            assert("scaleX"@.len() != "items"@.len());
            reveal_strlit("justify");
            assert("scaleX"@.len() != "justify"@.len());
            reveal_strlit("gap");
            assert("scaleX"@.len() != "gap"@.len());
            reveal_strlit("bg");
            assert("scaleX"@.len() != "bg"@.len());
            reveal_strlit("color");
            assert("scaleX"@.len() != "color"@.len());
            reveal_strlit("fontSize");
            assert("scaleX"@.len() != "fontSize"@.len());
            reveal_strlit("fontWeight");
            assert("scaleX"@.len() != "fontWeight"@.len());
            reveal_strlit("rounded");
            assert("scaleX"@.len() != "rounded"@.len());
            reveal_strlit("roundedTL");
            assert("scaleX"@.len() != "roundedTL"@.len());
            reveal_strlit("roundedTR");
            assert("scaleX"@.len() != "roundedTR"@.len());
            reveal_strlit("roundedBR");
            assert("scaleX"@.len() != "roundedBR"@.len());
            reveal_strlit("roundedBL");
            assert("scaleX"@.len() != "roundedBL"@.len());
            reveal_strlit("border");
            assert("scaleX"@[0] != "border"@[0]);
            reveal_strlit("borderTop");
            assert("scaleX"@.len() != "borderTop"@.len());
            reveal_strlit("borderRight");
            assert("scaleX"@.len() != "borderRight"@.len());
            reveal_strlit("borderBottom");
            assert("scaleX"@.len() != "borderBottom"@.len());
            reveal_strlit("borderLeft");
            assert("scaleX"@.len() != "borderLeft"@.len());
            reveal_strlit("borderColor");
            assert("scaleX"@.len() != "borderColor"@.len());
            reveal_strlit("opacity");
            assert("scaleX"@.len() != "opacity"@.len());
            reveal_strlit("display");
            assert("scaleX"@.len() != "display"@.len());
            reveal_strlit("cursor");
            assert("scaleX"@[0] != "cursor"@[0]);
            reveal_strlit("interactive");
            assert("scaleX"@.len() != "interactive"@.len());
            reveal_strlit("visibility");
            assert("scaleX"@.len() != "visibility"@.len());
            reveal_strlit("scrollable");
            assert("scaleX"@.len() != "scrollable"@.len());
            reveal_strlit("selectable");
            assert("scaleX"@.len() != "selectable"@.len());
            reveal_strlit("textWrap");
            assert("scaleX"@.len() != "textWrap"@.len());
            reveal_strlit("wordBreak");
            assert("scaleX"@.len() != "wordBreak"@.len());
            reveal_strlit("position");
            assert("scaleX"@.len() != "position"@.len());
            reveal_strlit("top");
            assert("scaleX"@.len() != "top"@.len());
            reveal_strlit("right");
            assert("scaleX"@.len() != "right"@.len());
            reveal_strlit("bottom");
            assert("scaleX"@[0] != "bottom"@[0]);
            reveal_strlit("left");
            assert("scaleX"@.len() != "left"@.len());
            reveal_strlit("translateX");
            assert("scaleX"@.len() != "translateX"@.len());
            reveal_strlit("translateY");
            assert("scaleX"@.len() != "translateY"@.len());
            reveal_strlit("rotate");
            assert("scaleX"@[0] != "rotate"@[0]);
            reveal_strlit("scale");
            assert("scaleX"@.len() != "scale"@.len());
        },
        StyleProp::ScaleY => {
            reveal_strlit("scaleY");
            reveal_strlit("w");
            assert("scaleY"@.len() != "w"@.len());
            reveal_strlit("h");
            assert("scaleY"@.len() != "h"@.len());
            reveal_strlit("minW");
            assert("scaleY"@.len() != "minW"@.len());
            reveal_strlit("minH");
            assert("scaleY"@.len() != "minH"@.len());
            reveal_strlit("p");
            assert("scaleY"@.len() != "p"@.len());
            reveal_strlit("px");
            assert("scaleY"@.len() != "px"@.len());
            reveal_strlit("py");
            assert("scaleY"@.len() != "py"@.len());
            reveal_strlit("pt");
            assert("scaleY"@.len() != "pt"@.len());
            reveal_strlit("pb");
            assert("scaleY"@.len() != "pb"@.len());
            reveal_strlit("pl");
            assert("scaleY"@.len() != "pl"@.len());
            reveal_strlit("pr");
            assert("scaleY"@.len() != "pr"@.len());
            reveal_strlit("m");
            assert("scaleY"@.len() != "m"@.len());
            reveal_strlit("mx");
            assert("scaleY"@.len() != "mx"@.len());
            reveal_strlit("my");
            assert("scaleY"@.len() != "my"@.len());
            reveal_strlit("mt");
            assert("scaleY"@.len() != "mt"@.len());
            reveal_strlit("mb");
            assert("scaleY"@.len() != "mb"@.len());
            reveal_strlit("ml");
            assert("scaleY"@.len() != "ml"@.len());
            reveal_strlit("mr");
            assert("scaleY"@.len() != "mr"@.len());
            reveal_strlit("flex");
            assert("scaleY"@.len() != "flex"@.len());
            reveal_strlit("flexDir");
            assert("scaleY"@.len() != "flexDir"@.len());
            reveal_strlit("flexGrow");
            assert("scaleY"@.len() != "flexGrow"@.len());
            reveal_strlit("flexShrink");
            assert("scaleY"@.len() != "flexShrink"@.len());
            reveal_strlit("items");
            assert("scaleY"@.len() != "items"@.len());
            reveal_strlit("justify");
            assert("scaleY"@.len() != "justify"@.len());
            reveal_strlit("gap");
            assert("scaleY"@.len() != "gap"@.len());
            reveal_strlit("bg");
            assert("scaleY"@.len() != "bg"@.len());
            reveal_strlit("color");
            assert("scaleY"@.len() != "color"@.len());
            reveal_strlit("fontSize");
            assert("scaleY"@.len() != "fontSize"@.len());
            reveal_strlit("fontWeight");
            assert("scaleY"@.len() != "fontWeight"@.len());
            reveal_strlit("rounded");
            assert("scaleY"@.len() != "rounded"@.len());
            reveal_strlit("roundedTL");
            assert("scaleY"@.len() != "roundedTL"@.len());
            reveal_strlit("roundedTR");
            assert("scaleY"@.len() != "roundedTR"@.len());
            reveal_strlit("roundedBR");
            assert("scaleY"@.len() != "roundedBR"@.len());
            reveal_strlit("roundedBL");
            assert("scaleY"@.len() != "roundedBL"@.len());
            reveal_strlit("border");
            assert("scaleY"@[0] != "border"@[0]);
            reveal_strlit("borderTop");
            assert("scaleY"@.len() != "borderTop"@.len());
            reveal_strlit("borderRight");
            assert("scaleY"@.len() != "borderRight"@.len());
            reveal_strlit("borderBottom");
            assert("scaleY"@.len() != "borderBottom"@.len());
            reveal_strlit("borderLeft");
            assert("scaleY"@.len() != "borderLeft"@.len());
            reveal_strlit("borderColor");
            assert("scaleY"@.len() != "borderColor"@.len());
            reveal_strlit("opacity");
            assert("scaleY"@.len() != "opacity"@.len());
            reveal_strlit("display");
            assert("scaleY"@.len() != "display"@.len());
            reveal_strlit("cursor");
            assert("scaleY"@[0] != "cursor"@[0]);
            reveal_strlit("interactive");
            assert("scaleY"@.len() != "interactive"@.len());
            reveal_strlit("visibility");
            assert("scaleY"@.len() != "visibility"@.len());
            reveal_strlit("scrollable");
            assert("scaleY"@.len() != "scrollable"@.len());
            reveal_strlit("selectable");
            assert("scaleY"@.len() != "selectable"@.len());
            reveal_strlit("textWrap");
            assert("scaleY"@.len() != "textWrap"@.len());
            reveal_strlit("wordBreak");
            assert("scaleY"@.len() != "wordBreak"@.len());
            reveal_strlit("position");
            assert("scaleY"@.len() != "position"@.len());
            reveal_strlit("top");
            assert("scaleY"@.len() != "top"@.len());
            reveal_strlit("right");
            assert("scaleY"@.len() != "right"@.len());
            reveal_strlit("bottom");
            assert("scaleY"@[0] != "bottom"@[0]);
            reveal_strlit("left");
            assert("scaleY"@.len() != "left"@.len());
            reveal_strlit("translateX");
            assert("scaleY"@.len() != "translateX"@.len());
            reveal_strlit("translateY");
            assert("scaleY"@.len() != "translateY"@.len());
            reveal_strlit("rotate");
            assert("scaleY"@[0] != "rotate"@[0]);
            reveal_strlit("scale");
            assert("scaleY"@.len() != "scale"@.len());
            reveal_strlit("scaleX");
            assert("scaleY"@[5] != "scaleX"@[5]);
        },
    }
}

/// Each element property is parsed back from its own name: names are distinct.
pub proof fn law_element_prop_name_roundtrip(p: ElementProp)
    ensures
        element_prop_named(element_prop_name(p)) == Some(p),
{
    match p {
        ElementProp::Value => {
            reveal_strlit("value");
        },
        ElementProp::Placeholder => {
            reveal_strlit("placeholder");
            reveal_strlit("value");
            assert("placeholder"@.len() != "value"@.len());
        },
        ElementProp::Disabled => {
            reveal_strlit("disabled");
            reveal_strlit("value");
            assert("disabled"@.len() != "value"@.len());
            reveal_strlit("placeholder");
            assert("disabled"@.len() != "placeholder"@.len());
        },
        ElementProp::MaxLength => {
            reveal_strlit("maxLength");
            reveal_strlit("value");
            assert("maxLength"@.len() != "value"@.len());
            reveal_strlit("placeholder");
            assert("maxLength"@.len() != "placeholder"@.len());
            reveal_strlit("disabled");
            assert("maxLength"@.len() != "disabled"@.len());
        },
        ElementProp::Multiline => {
            reveal_strlit("multiline");
            reveal_strlit("value");
            assert("multiline"@.len() != "value"@.len());
            reveal_strlit("placeholder");
            assert("multiline"@.len() != "placeholder"@.len());
            reveal_strlit("disabled");
            assert("multiline"@.len() != "disabled"@.len());
            reveal_strlit("maxLength");
            assert("multiline"@[1] != "maxLength"@[1]);
        },
        ElementProp::Secure => {
            reveal_strlit("secure");
            reveal_strlit("value");
            assert("secure"@.len() != "value"@.len());
            reveal_strlit("placeholder");
            assert("secure"@.len() != "placeholder"@.len());
            reveal_strlit("disabled");
            assert("secure"@.len() != "disabled"@.len());
            reveal_strlit("maxLength");
            assert("secure"@.len() != "maxLength"@.len());
            reveal_strlit("multiline");
            assert("secure"@.len() != "multiline"@.len());
        },
        ElementProp::Checked => {
            reveal_strlit("checked");
            reveal_strlit("value");
            assert("checked"@.len() != "value"@.len());
            reveal_strlit("placeholder");
            assert("checked"@.len() != "placeholder"@.len());
            reveal_strlit("disabled");
            assert("checked"@.len() != "disabled"@.len());
            reveal_strlit("maxLength");
            assert("checked"@.len() != "maxLength"@.len());
            reveal_strlit("multiline");
            assert("checked"@.len() != "multiline"@.len());
            reveal_strlit("secure");
            assert("checked"@.len() != "secure"@.len());
        },
    }
}

impl StyleProp {
    /// Parses a style attribute name.
    pub fn parse(value: &str) -> (r: Option<Self>)
        ensures
            r == style_prop_named(value@),
    {
        if str_eq(value, "w") {
            Some(Self::W)
        } else if str_eq(value, "h") {
            Some(Self::H)
        } else if str_eq(value, "minW") {
            Some(Self::MinW)
        } else if str_eq(value, "minH") {
            Some(Self::MinH)
        } else if str_eq(value, "p") {
            Some(Self::P)
        } else if str_eq(value, "px") {
            Some(Self::Px)
        } else if str_eq(value, "py") {
            Some(Self::Py)
        } else if str_eq(value, "pt") {
            Some(Self::Pt)
        } else if str_eq(value, "pb") {
            Some(Self::Pb)
        } else if str_eq(value, "pl") {
            Some(Self::Pl)
        } else if str_eq(value, "pr") {
            Some(Self::Pr)
        } else if str_eq(value, "m") {
            Some(Self::M)
        } else if str_eq(value, "mx") {
            Some(Self::Mx)
        } else if str_eq(value, "my") {
            Some(Self::My)
        } else if str_eq(value, "mt") {
            Some(Self::Mt)
        } else if str_eq(value, "mb") {
            Some(Self::Mb)
        } else if str_eq(value, "ml") {
            Some(Self::Ml)
        } else if str_eq(value, "mr") {
            Some(Self::Mr)
        } else if str_eq(value, "flex") {
            Some(Self::Flex)
        } else if str_eq(value, "flexDir") {
            Some(Self::FlexDir)
        } else if str_eq(value, "flexGrow") {
            Some(Self::FlexGrow)
        } else if str_eq(value, "flexShrink") {
            Some(Self::FlexShrink)
        } else if str_eq(value, "items") {
            Some(Self::Items)
        } else if str_eq(value, "justify") {
            Some(Self::Justify)
        } else if str_eq(value, "gap") {
            Some(Self::Gap)
        } else if str_eq(value, "bg") {
            Some(Self::Bg)
        } else if str_eq(value, "color") {
            Some(Self::Color)
        } else if str_eq(value, "fontSize") {
            Some(Self::FontSize)
        } else if str_eq(value, "fontWeight") {
            Some(Self::FontWeight)
        } else if str_eq(value, "rounded") {
            Some(Self::Rounded)
        } else if str_eq(value, "roundedTL") {
            Some(Self::RoundedTL)
        } else if str_eq(value, "roundedTR") {
            Some(Self::RoundedTR)
        } else if str_eq(value, "roundedBR") {
            Some(Self::RoundedBR)
        } else if str_eq(value, "roundedBL") {
            Some(Self::RoundedBL)
        } else if str_eq(value, "border") {
            Some(Self::Border)
        } else if str_eq(value, "borderTop") {
            Some(Self::BorderTop)
        } else if str_eq(value, "borderRight") {
            Some(Self::BorderRight)
        } else if str_eq(value, "borderBottom") {
            Some(Self::BorderBottom)
        } else if str_eq(value, "borderLeft") {
            Some(Self::BorderLeft)
        } else if str_eq(value, "borderColor") {
            Some(Self::BorderColor)
        } else if str_eq(value, "opacity") {
            Some(Self::Opacity)
        } else if str_eq(value, "display") {
            Some(Self::Display)
        } else if str_eq(value, "cursor") {
            Some(Self::Cursor)
        } else if str_eq(value, "interactive") {
            Some(Self::Interactive)
        } else if str_eq(value, "visibility") {
            Some(Self::Visibility)
        } else if str_eq(value, "scrollable") {
            Some(Self::Scrollable)
        } else if str_eq(value, "selectable") {
            Some(Self::TextSelect)
        } else if str_eq(value, "textWrap") {
            Some(Self::TextWrap)
        } else if str_eq(value, "wordBreak") {
            Some(Self::WordBreak)
        } else if str_eq(value, "position") {
            Some(Self::Position)
        } else if str_eq(value, "top") {
            Some(Self::Top)
        } else if str_eq(value, "right") {
            Some(Self::Right)
        } else if str_eq(value, "bottom") {
            Some(Self::Bottom)
        } else if str_eq(value, "left") {
            Some(Self::Left)
        } else if str_eq(value, "translateX") {
            Some(Self::TranslateX)
        } else if str_eq(value, "translateY") {
            Some(Self::TranslateY)
        } else if str_eq(value, "rotate") {
            Some(Self::Rotate)
        } else if str_eq(value, "scale") {
            Some(Self::Scale)
        } else if str_eq(value, "scaleX") {
            Some(Self::ScaleX)
        } else if str_eq(value, "scaleY") {
            Some(Self::ScaleY)
        } else {
            None
        }
    }
}

impl ElementProp {
    /// Parses an element attribute name.
    pub fn parse(value: &str) -> (r: Option<Self>)
        ensures
            r == element_prop_named(value@),
    {
        if str_eq(value, "value") {
            Some(Self::Value)
        } else if str_eq(value, "placeholder") {
            Some(Self::Placeholder)
        } else if str_eq(value, "disabled") {
            Some(Self::Disabled)
        } else if str_eq(value, "maxLength") {
            Some(Self::MaxLength)
        } else if str_eq(value, "multiline") {
            Some(Self::Multiline)
        } else if str_eq(value, "secure") {
            Some(Self::Secure)
        } else if str_eq(value, "checked") {
            Some(Self::Checked)
        } else {
            None
        }
    }
}

/// If `value` starts with `prefix`, the rest of it.
fn strip_prefix<'a>(value: &'a str, prefix: &str) -> (r: Option<&'a str>)
    ensures
        match r {
            Some(rest) => has_prefix(value@, prefix@) && rest@ == value@.skip(prefix@.len() as int),
            None => !has_prefix(value@, prefix@),
        },
{
    let n = value.unicode_len();
    let k = prefix.unicode_len();
    if k > n {
        return None;
    }
    let head = value.substring_char(0, k);
    if !str_eq(head, prefix) {
        return None;
    }
    let rest = value.substring_char(k, n);
    assert(value@.subrange(k as int, n as int) =~= value@.skip(k as int));
    Some(rest)
}

impl AttributeKind {
    /// Parses an attribute name (see `attribute_named`).
    pub fn parse(value: &str) -> (r: Option<Self>)
        ensures
            r == attribute_named(value@),
    {
        if let Some(ep) = ElementProp::parse(value) {
            return Some(AttributeKind::Element(ep));
        }
        proof {
            reveal_strlit("hover:");
            reveal_strlit("active:");
        }
        if let Some(rest) = strip_prefix(value, "hover:") {
            return match StyleProp::parse(rest) {
                Some(p) => Some(AttributeKind::Style(p, StyleVariant::Hover)),
                None => None,
            };
        }
        if let Some(rest) = strip_prefix(value, "active:") {
            return match StyleProp::parse(rest) {
                Some(p) => Some(AttributeKind::Style(p, StyleVariant::Active)),
                None => None,
            };
        }
        match StyleProp::parse(value) {
            Some(p) => Some(AttributeKind::Style(p, StyleVariant::Base)),
            None => None,
        }
    }
}

impl std::str::FromStr for StyleProp {
    type Err = ();

    fn from_str(value: &str) -> (r: Result<Self, ()>)
        ensures
            r == (match style_prop_named(value@) {
                Some(p) => Ok::<StyleProp, ()>(p),
                None => Err(()),
            }),
    {
        match StyleProp::parse(value) {
            Some(p) => Ok(p),
            None => Err(()),
        }
    }
}

impl std::str::FromStr for ElementProp {
    type Err = ();

    fn from_str(value: &str) -> (r: Result<Self, ()>)
        ensures
            r == (match element_prop_named(value@) {
                Some(x) => Ok::<ElementProp, ()>(x),
                None => Err(()),
            }),
    {
        match ElementProp::parse(value) {
            Some(p) => Ok(p),
            None => Err(()),
        }
    }
}

impl std::str::FromStr for AttributeKind {
    type Err = ();

    fn from_str(value: &str) -> (r: Result<Self, ()>)
        ensures
            r == (match attribute_named(value@) {
                Some(x) => Ok::<AttributeKind, ()>(x),
                None => Err(()),
            }),
    {
        match AttributeKind::parse(value) {
            Some(k) => Ok(k),
            None => Err(()),
        }
    }
}

} // verus!
