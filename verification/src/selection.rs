use vstd::prelude::*;

verus! {

/// Identifier of a node in the document tree.
pub type NodeId = usize;

/// A selection inside one text buffer, in flat grapheme indices.
#[derive(Clone, Copy, Debug, Default, PartialEq, Eq, Structural)]
pub struct SelectionRange {
    /// Anchor point (where the selection started).
    pub anchor: usize,
    /// Active point (the cursor position).
    pub active: usize,
}

/// The smaller of the two ends of a range.
pub open spec fn range_start(r: SelectionRange) -> usize {
    if r.anchor <= r.active { r.anchor } else { r.active }
}

/// The larger of the two ends of a range.
pub open spec fn range_end(r: SelectionRange) -> usize {
    if r.anchor <= r.active { r.active } else { r.anchor }
}

impl SelectionRange {
    pub fn new(anchor: usize, active: usize) -> (r: Self)
        ensures
            r.anchor == anchor,
            r.active == active,
    {
        Self { anchor, active }
    }

    pub fn is_collapsed(&self) -> (b: bool)
        ensures
            b == (self.anchor == self.active),
    {
        self.anchor == self.active
    }

    pub fn start(&self) -> (s: usize)
        ensures
            s == range_start(*self),
    {
        if self.anchor <= self.active { self.anchor } else { self.active }
    }

    pub fn end(&self) -> (e: usize)
        ensures
            e == range_end(*self),
    {
        if self.anchor <= self.active { self.active } else { self.anchor }
    }

    pub fn set_cursor(&mut self, pos: usize)
        ensures
            final(self).anchor == pos,
            final(self).active == pos,
    {
        self.anchor = pos;
        self.active = pos;
    }
}

/// A selection over the text of a selectable subtree rooted at `root`.
#[derive(Clone, Copy, Debug, PartialEq, Eq, Structural)]
pub struct DomSelection {
    /// The selectable root that owns this selection.
    pub root: NodeId,
    pub range: SelectionRange,
}

impl DomSelection {
    pub fn new(root: NodeId, anchor: usize, active: usize) -> (s: Self)
        ensures
            s.root == root,
            s.range.anchor == anchor,
            s.range.active == active,
    {
        Self { root, range: SelectionRange { anchor, active } }
    }

    pub fn anchor(&self) -> (a: usize)
        ensures
            a == self.range.anchor,
    {
        self.range.anchor
    }

    pub fn active(&self) -> (a: usize)
        ensures
            a == self.range.active,
    {
        self.range.active
    }

    pub fn set_cursor(&mut self, pos: usize)
        ensures
            final(self).root == old(self).root,
            final(self).range.anchor == pos,
            final(self).range.active == pos,
    {
        self.range.set_cursor(pos);
    }

    pub fn start(&self) -> (s: usize)
        ensures
            s == range_start(self.range),
    {
        self.range.start()
    }

    pub fn end(&self) -> (e: usize)
        ensures
            e == range_end(self.range),
    {
        self.range.end()
    }

    pub fn is_collapsed(&self) -> (b: bool)
        ensures
            b == (self.range.anchor == self.range.active),
    {
        self.range.is_collapsed()
    }
}

/// The two ends of a range, ordered, cover it: `start <= end`, and each end is
/// one of the two points.
pub proof fn lemma_range_ends(r: SelectionRange)
    ensures
        range_start(r) <= range_end(r),
        (range_start(r) == r.anchor && range_end(r) == r.active) || (range_start(r) == r.active
            && range_end(r) == r.anchor),
        (range_start(r) == range_end(r)) == (r.anchor == r.active),
{
}

/// The selection in effect: the focused input's, else the view selection.
pub fn unified_selection(focused_input: Option<(NodeId, SelectionRange)>, view: Option<DomSelection>) -> (r:
    Option<DomSelection>)
    ensures
        r == (match focused_input {
            Some((id, range)) => Some(DomSelection { root: id, range }),
            None => view,
        }),
{
    match focused_input {
        Some((id, range)) => Some(DomSelection { root: id, range }),
        None => view,
    }
}

/// The ordered ends of a selection that is not collapsed.
pub fn selection_range(sel: Option<DomSelection>) -> (r: Option<(usize, usize)>)
    ensures
        r == (match sel {
            Some(s) => if s.range.anchor == s.range.active {
                None
            } else {
                Some((range_start(s.range), range_end(s.range)))
            },
            None => None::<(usize, usize)>,
        }),
{
    match sel {
        Some(s) => if s.is_collapsed() {
            None
        } else {
            Some((s.start(), s.end()))
        },
        None => None,
    }
}

/// Dragging over a selectable subtree moves the active end of its
/// selection; a selection of another subtree is left alone.
pub fn drag_view_selection(sel: &mut Option<DomSelection>, root: NodeId, flat_idx: usize)
    ensures
        *final(sel) == (match *old(sel) {
            Some(s) => if s.root == root {
                Some(DomSelection { root, range: SelectionRange { anchor: s.range.anchor, active: flat_idx } })
            } else {
                Some(s)
            },
            None => None,
        }),
{
    if let Some(s) = sel {
        if s.root == root {
            s.range.active = flat_idx;
        }
    }
}

} // verus!
