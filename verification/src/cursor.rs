use vstd::prelude::*;

use crate::textkit::{str_eq, trim_end, trim_start, trim_str};

verus! {

/// A subset of CSS cursor keywords that map cleanly to platform cursors.
#[derive(Copy, Clone, Debug, Eq, PartialEq, Structural)]
pub enum UzCursorIcon {
    Default,
    Pointer,
    Text,
    Wait,
    Crosshair,
    Move,
    NotAllowed,
    Grab,
    Grabbing,
    Help,
    Progress,
    EwResize,
    NsResize,
    NeswResize,
    NwseResize,
    ColResize,
    RowResize,
    AllScroll,
    ZoomIn,
    ZoomOut,
}

/// The cursor a keyword names, after trimming; `None` for unknown keywords.
pub open spec fn cursor_keyword(t: Seq<char>) -> Option<UzCursorIcon> {
    if t == "default"@ || t == "auto"@ || t == "initial"@ {
        Some(UzCursorIcon::Default)
    } else if t == "pointer"@ || t == "hand"@ {
        Some(UzCursorIcon::Pointer)
    } else if t == "text"@ || t == "caret"@ || t == "i-beam"@ {
        Some(UzCursorIcon::Text)
    } else if t == "wait"@ {
        Some(UzCursorIcon::Wait)
    } else if t == "crosshair"@ {
        Some(UzCursorIcon::Crosshair)
    } else if t == "move"@ {
        Some(UzCursorIcon::Move)
    } else if t == "not-allowed"@ || t == "no-drop"@ {
        Some(UzCursorIcon::NotAllowed)
    } else if t == "grab"@ {
        Some(UzCursorIcon::Grab)
    } else if t == "grabbing"@ {
        Some(UzCursorIcon::Grabbing)
    } else if t == "help"@ {
        Some(UzCursorIcon::Help)
    } else if t == "progress"@ {
        Some(UzCursorIcon::Progress)
    } else if t == "ew-resize"@ || t == "col-resize"@ {
        Some(UzCursorIcon::EwResize)
    } else if t == "ns-resize"@ || t == "row-resize"@ {
        Some(UzCursorIcon::NsResize)
    } else if t == "nesw-resize"@ {
        Some(UzCursorIcon::NeswResize)
    } else if t == "nwse-resize"@ {
        Some(UzCursorIcon::NwseResize)
    } else if t == "all-scroll"@ {
        Some(UzCursorIcon::AllScroll)
    } else if t == "zoom-in"@ {
        Some(UzCursorIcon::ZoomIn)
    } else if t == "zoom-out"@ {
        Some(UzCursorIcon::ZoomOut)
    } else {
        None
    }
}

impl Default for UzCursorIcon {
    fn default() -> (c: Self)
        ensures
            c == UzCursorIcon::Default,
    {
        UzCursorIcon::Default
    }
}

impl UzCursorIcon {
    /// Parses a CSS cursor keyword, ignoring surrounding white space.
    pub fn parse(value: &str) -> (r: Option<Self>)
        ensures
            r == cursor_keyword(trim_end(trim_start(value@))),
    {
        let t = trim_str(value);
        if str_eq(t, "default") || str_eq(t, "auto") || str_eq(t, "initial") {
            Some(Self::Default)
        } else if str_eq(t, "pointer") || str_eq(t, "hand") {
            Some(Self::Pointer)
        } else if str_eq(t, "text") || str_eq(t, "caret") || str_eq(t, "i-beam") {
            Some(Self::Text)
        } else if str_eq(t, "wait") {
            Some(Self::Wait)
        } else if str_eq(t, "crosshair") {
            Some(Self::Crosshair)
        } else if str_eq(t, "move") {
            Some(Self::Move)
        } else if str_eq(t, "not-allowed") || str_eq(t, "no-drop") {
            Some(Self::NotAllowed)
        } else if str_eq(t, "grab") {
            Some(Self::Grab)
        } else if str_eq(t, "grabbing") {
            Some(Self::Grabbing)
        } else if str_eq(t, "help") {
            Some(Self::Help)
        } else if str_eq(t, "progress") {
            Some(Self::Progress)
        } else if str_eq(t, "ew-resize") || str_eq(t, "col-resize") {
            Some(Self::EwResize)
        } else if str_eq(t, "ns-resize") || str_eq(t, "row-resize") {
            Some(Self::NsResize)
        } else if str_eq(t, "nesw-resize") {
            Some(Self::NeswResize)
        } else if str_eq(t, "nwse-resize") {
            Some(Self::NwseResize)
        } else if str_eq(t, "all-scroll") {
            Some(Self::AllScroll)
        } else if str_eq(t, "zoom-in") {
            Some(Self::ZoomIn)
        } else if str_eq(t, "zoom-out") {
            Some(Self::ZoomOut)
        } else {
            None
        }
    }
}

/// The cursor over a node: its style's cursor, else the cursor its kind
/// shows, else the text cursor over selectable text; failing those, the
/// cursor of the nearest ancestor whose style sets one, else the default.
pub open spec fn resolved_cursor(
    own: Option<UzCursorIcon>,
    behavior: Option<UzCursorIcon>,
    text_selectable: bool,
    ancestors: Seq<Option<UzCursorIcon>>,
) -> UzCursorIcon {
    match own {
        Some(c) => c,
        None => match behavior {
            Some(c) => c,
            None => if text_selectable {
                UzCursorIcon::Text
            } else {
                first_set_cursor(ancestors)
            },
        },
    }
}

/// The first cursor set in a list of ancestors' styles, nearest first; the
/// default when none sets one.
pub open spec fn first_set_cursor(ancestors: Seq<Option<UzCursorIcon>>) -> UzCursorIcon
    decreases ancestors.len(),
{
    if ancestors.len() == 0 {
        UzCursorIcon::Default
    } else {
        match ancestors[0] {
            Some(c) => c,
            None => first_set_cursor(ancestors.drop_first()),
        }
    }
}

/// Resolves the cursor over a node (see `resolved_cursor`) from its style's
/// cursor, the cursor of its kind, whether it holds selectable text, and the
/// style cursors of its ancestors, nearest first.
pub fn resolve_cursor(
    own: Option<UzCursorIcon>,
    behavior: Option<UzCursorIcon>,
    text_selectable: bool,
    ancestors: &[Option<UzCursorIcon>],
) -> (c: UzCursorIcon)
    ensures
        c == resolved_cursor(own, behavior, text_selectable, ancestors@),
{
    if let Some(c) = own {
        return c;
    }
    if let Some(c) = behavior {
        return c;
    }
    if text_selectable {
        return UzCursorIcon::Text;
    }
    let n = ancestors.len();
    let mut i: usize = 0;
    assert(ancestors@.skip(0) =~= ancestors@);
    while i < n
        invariant
            n == ancestors@.len(),
            i <= n,
            own is None && behavior is None && !text_selectable,
            first_set_cursor(ancestors@) == first_set_cursor(ancestors@.skip(i as int)),
        decreases n - i,
    {
        proof {
            assert(ancestors@.skip(i as int).drop_first() =~= ancestors@.skip(i + 1));
            assert(ancestors@.skip(i as int)[0] == ancestors@[i as int]);
        }
        if let Some(c) = ancestors[i] {
            assert(first_set_cursor(ancestors@.skip(i as int)) == c);
            return c;
        }
        i = i + 1;
    }
    assert(ancestors@.skip(n as int) =~= Seq::<Option<UzCursorIcon>>::empty());
    UzCursorIcon::Default
}

} // verus!
