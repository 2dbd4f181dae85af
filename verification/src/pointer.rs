use vstd::prelude::*;

use crate::input::{ctrl_held, shift_held};
use crate::interactivity::MouseButton;
use crate::selection::{DomSelection, NodeId, SelectionRange};
use crate::text_runs::{
    entry_of, find_run, find_run_entry_for_node, run_clusters, run_has_node, run_of, word_boundaries_in_run,
    word_bounds, TextRunEntry, TextSelectRun,
};

verus! {

// ── Buttons and modifiers ───────────────────────────────────────────────────

impl MouseButton {
    /// The button's number in mouse events: 0 left, 1 middle, 2 right.
    pub fn number(&self) -> (n: u8)
        ensures
            n == (match *self {
                MouseButton::Left => 0u8,
                MouseButton::Middle => 1u8,
                MouseButton::Right => 2u8,
            }),
    {
        match self {
            MouseButton::Left => 0,
            MouseButton::Middle => 1,
            MouseButton::Right => 2,
        }
    }

    /// The button's bit in the mask of held buttons: 1 left, 2 right, 4
    /// middle.
    pub fn bit(&self) -> (b: u8)
        ensures
            b == button_bit(*self),
    {
        match self {
            MouseButton::Left => 1,
            MouseButton::Right => 2,
            MouseButton::Middle => 4,
        }
    }
}

pub open spec fn button_bit(b: MouseButton) -> u8 {
    match b {
        MouseButton::Left => 1u8,
        MouseButton::Right => 2u8,
        MouseButton::Middle => 4u8,
    }
}

/// The mask of held buttons after a button goes down or up; a button the
/// mask has no bit for leaves it as it is.
pub fn update_button_mask(mask: u8, button: Option<MouseButton>, pressed: bool) -> (r: u8)
    ensures
        r == (match button {
            Some(b) => if pressed {
                mask | button_bit(b)
            } else {
                mask & !button_bit(b)
            },
            None => mask,
        }),
{
    match button {
        Some(b) => {
            let bit = b.bit();
            if pressed {
                mask | bit
            } else {
                mask & !bit
            }
        },
        None => {
            assert(mask | 0u8 == mask && mask & !0u8 == mask) by (bit_vector);
            mask
        },
    }
}

/// Pressing a button sets its bit and releasing it clears it; the other bits
/// stay as they were.
pub proof fn law_button_mask(mask: u8, b: MouseButton, other: MouseButton)
    requires
        other != b,
    ensures
        update_button_mask_spec(mask, b, true) & button_bit(b) != 0,
        update_button_mask_spec(mask, b, false) & button_bit(b) == 0,
        update_button_mask_spec(mask, b, true) & button_bit(other) == mask & button_bit(other),
        update_button_mask_spec(mask, b, false) & button_bit(other) == mask & button_bit(other),
{
    let x = button_bit(b);
    let y = button_bit(other);
    assert(x == 1 || x == 2 || x == 4);
    assert(y == 1 || y == 2 || y == 4);
    assert(x != y);
    assert((mask | x) & x != 0 && (mask & !x) & x == 0) by (bit_vector)
        requires
            x == 1u8 || x == 2u8 || x == 4u8,
    ;
    assert((mask | x) & y == mask & y && (mask & !x) & y == mask & y) by (bit_vector)
        requires
            x == 1u8 || x == 2u8 || x == 4u8,
            y == 1u8 || y == 2u8 || y == 4u8,
            x != y,
    ;
}

/// The mask after a button of the mask goes down or up.
pub open spec fn update_button_mask_spec(mask: u8, b: MouseButton, pressed: bool) -> u8 {
    if pressed {
        mask | button_bit(b)
    } else {
        mask & !button_bit(b)
    }
}

/// The modifier mask of key events: Control 1, Alt 2, Shift 4, Super 8.
pub fn modifier_bits(ctrl: bool, alt: bool, shift: bool, super_key: bool) -> (bits: u32)
    ensures
        bits == (if ctrl { 1u32 } else { 0u32 }) | (if alt { 2u32 } else { 0u32 }) | (if shift {
            4u32
        } else {
            0u32
        }) | (if super_key { 8u32 } else { 0u32 }),
{
    let c: u32 = if ctrl { 1 } else { 0 };
    let a: u32 = if alt { 2 } else { 0 };
    let s: u32 = if shift { 4 } else { 0 };
    let u: u32 = if super_key { 8 } else { 0 };
    c | a | s | u
}

/// The modifier mask built from the held keys says Control and Shift are
/// held exactly when they are.
pub proof fn law_modifier_bits_read_back(ctrl: bool, alt: bool, shift: bool, super_key: bool)
    ensures
        ({
            let bits = (if ctrl { 1u32 } else { 0u32 }) | (if alt { 2u32 } else { 0u32 }) | (if shift {
                4u32
            } else {
                0u32
            }) | (if super_key { 8u32 } else { 0u32 });
            ctrl_held(bits) == ctrl && shift_held(bits) == shift
        }),
{
    let c: u32 = if ctrl { 1u32 } else { 0u32 };
    let a: u32 = if alt { 2u32 } else { 0u32 };
    let s: u32 = if shift { 4u32 } else { 0u32 };
    let u: u32 = if super_key { 8u32 } else { 0u32 };
    assert(((c | a | s | u) & 1 != 0) == (c == 1) && ((c | a | s | u) & 4 != 0) == (s == 4)) by (
    bit_vector)
        requires
            c == 0u32 || c == 1u32,
            a == 0u32 || a == 2u32,
            s == 0u32 || s == 4u32,
            u == 0u32 || u == 8u32,
    ;
}

// ── Clicks ──────────────────────────────────────────────────────────────────

/// Clicks on one node less than this many milliseconds apart count together.
pub const MULTI_CLICK_MS: u64 = 400;

/// Counts consecutive clicks: a second click selects a word, a third a line,
/// a fourth everything.
pub struct ClickTracker {
    pub last_node: Option<NodeId>,
    pub click_count: u8,
}

impl ClickTracker {
    pub fn new() -> (t: Self)
        ensures
            t.last_node is None,
            t.click_count == 0,
    {
        ClickTracker { last_node: None, click_count: 0 }
    }

    /// Records a click on `node`, `since_last_ms` after the previous click
    /// (`None` if there was none), and returns the click count: one more
    /// (up to four) for a click on the same node within `MULTI_CLICK_MS`,
    /// else one.
    pub fn register_click(&mut self, node: NodeId, since_last_ms: Option<u64>) -> (count: u8)
        ensures
            final(self).last_node == Some(node),
            count == final(self).click_count,
            count == (if old(self).last_node == Some(node) && (since_last_ms matches Some(ms) && ms
                < MULTI_CLICK_MS) {
                if old(self).click_count + 1 < 4 {
                    (old(self).click_count + 1) as u8
                } else {
                    4u8
                }
            } else {
                1u8
            }),
            1 <= count <= 4,
    {
        let consecutive = match (self.last_node, since_last_ms) {
            (Some(last), Some(ms)) => last == node && ms < MULTI_CLICK_MS,
            _ => false,
        };
        self.last_node = Some(node);
        self.click_count = if consecutive {
            if self.click_count < 3 {
                self.click_count + 1
            } else {
                4
            }
        } else {
            1
        };
        self.click_count
    }

    /// Forgets a removed node: a click on it no longer counts toward the
    /// next one.
    pub fn forget_node(&mut self, id: NodeId)
        ensures
            old(self).last_node == Some(id) ==> final(self).last_node is None && final(self).click_count == 0,
            old(self).last_node != Some(id) ==> *final(self) == *old(self),
    {
        if self.last_node == Some(id) {
            self.last_node = None;
            self.click_count = 0;
        }
    }
}

/// The focus change of clicking a focusable node: blur the node that had
/// focus and focus the clicked one, unless it had focus already.
pub fn focus_transition(old_focus: Option<NodeId>, target: NodeId) -> (r: (Option<NodeId>, Option<NodeId>))
    ensures
        r == (if old_focus == Some(target) {
            (None::<NodeId>, None::<NodeId>)
        } else {
            (old_focus, Some(target))
        }),
{
    match old_focus {
        Some(old) => if old == target {
            (None, None)
        } else {
            (Some(old), Some(target))
        },
        None => (None, Some(target)),
    }
}

/// The flat index of a point inside a node's text: the node's first cluster
/// plus the index within it, which is capped at the node's clusters.
pub fn flat_index_in_entry(entry: &TextRunEntry, local_idx: usize) -> (r: usize)
    requires
        entry.flat_start + entry.grapheme_count <= usize::MAX,
    ensures
        r == entry.flat_start + (if local_idx < entry.grapheme_count {
            local_idx
        } else {
            entry.grapheme_count
        }),
{
    let capped = if local_idx < entry.grapheme_count { local_idx } else { entry.grapheme_count };
    entry.flat_start + capped
}

/// No entry of the runs ends past `usize::MAX`.
pub open spec fn entries_fit(runs: Seq<TextSelectRun>) -> bool {
    forall|i: int, j: int|
        0 <= i < runs.len() && 0 <= j < runs[i].entries@.len() ==> #[trigger] runs[i].entries@[j].flat_start
            + runs[i].entries@[j].grapheme_count <= usize::MAX
}

/// The view selection a click makes (see `view_click_selection`), as one
/// value.
pub open spec fn click_selection(
    runs: Seq<TextSelectRun>,
    node: NodeId,
    root: NodeId,
    flat_idx: usize,
    click_count: u8,
) -> Option<DomSelection> {
    if click_count == 2 {
        Some(
            DomSelection {
                root,
                range: SelectionRange {
                    anchor: (match run_of(runs, root) {
                        Some(run) => word_bounds(run_clusters(run), flat_idx as int).0,
                        None => flat_idx as int,
                    }) as usize,
                    active: (match run_of(runs, root) {
                        Some(run) => word_bounds(run_clusters(run), flat_idx as int).1,
                        None => flat_idx as int,
                    }) as usize,
                },
            },
        )
    } else if click_count == 3 {
        match entry_of(runs, node) {
            Some((r, e)) => Some(
                DomSelection {
                    root: r,
                    range: SelectionRange {
                        anchor: e.flat_start,
                        active: (e.flat_start + e.grapheme_count) as usize,
                    },
                },
            ),
            None => None,
        }
    } else if click_count == 4 {
        match run_of(runs, root) {
            Some(run) => Some(
                DomSelection { root, range: SelectionRange { anchor: 0, active: run.total_graphemes } },
            ),
            None => None,
        }
    } else {
        Some(DomSelection { root, range: SelectionRange { anchor: flat_idx, active: flat_idx } })
    }
}

/// The view selection a click on the text node `node` at `flat_idx` of the
/// run of `root` makes, by click count: the caret there, the word around it,
/// the node's text, or the whole run. `None` when the node or the run has no
/// entry (nothing is selected then).
pub fn view_click_selection(
    runs: &[TextSelectRun],
    node: NodeId,
    root: NodeId,
    flat_idx: usize,
    click_count: u8,
) -> (r: Option<DomSelection>)
    requires
        entries_fit(runs@),
    ensures
        r == click_selection(runs@, node, root, flat_idx, click_count),
        click_count == 2 ==> r == Some(
            DomSelection {
                root,
                range: SelectionRange {
                    anchor: (match run_of(runs@, root) {
                        Some(run) => word_bounds(run_clusters(run), flat_idx as int).0,
                        None => flat_idx as int,
                    }) as usize,
                    active: (match run_of(runs@, root) {
                        Some(run) => word_bounds(run_clusters(run), flat_idx as int).1,
                        None => flat_idx as int,
                    }) as usize,
                },
            },
        ),
        click_count == 3 ==> match r {
            Some(s) => exists|i: int, j: int|
                0 <= i < runs@.len() && 0 <= j < runs@[i].entries@.len() && {
                    let e = #[trigger] runs@[i].entries@[j];
                    &&& e.node_id == node
                    &&& forall|a: int| 0 <= a < i ==> !run_has_node(#[trigger] runs@[a], node)
                    &&& forall|b: int| 0 <= b < j ==> #[trigger] runs@[i].entries@[b].node_id != node
                    &&& s == DomSelection {
                        root: runs@[i].root_id,
                        range: SelectionRange {
                            anchor: e.flat_start,
                            active: (e.flat_start + e.grapheme_count) as usize,
                        },
                    }
                },
            None => forall|a: int| 0 <= a < runs@.len() ==> !run_has_node(#[trigger] runs@[a], node),
        },
        click_count == 4 ==> r == (match run_of(runs@, root) {
            Some(run) => Some(
                DomSelection { root, range: SelectionRange { anchor: 0, active: run.total_graphemes } },
            ),
            None => None::<DomSelection>,
        }),
        click_count != 2 && click_count != 3 && click_count != 4 ==> r == Some(
            DomSelection { root, range: SelectionRange { anchor: flat_idx, active: flat_idx } },
        ),
{
    if click_count == 2 {
        let (ws, we) = word_boundaries_in_run(runs, root, flat_idx);
        Some(DomSelection::new(root, ws, we))
    } else if click_count == 3 {
        match find_run_entry_for_node(runs, node) {
            Some((i, j)) => {
                let run = &runs[i];
                let e = &run.entries[j];
                assert(e.flat_start + e.grapheme_count <= usize::MAX);
                let s = DomSelection::new(run.root_id, e.flat_start, e.flat_start + e.grapheme_count);
                assert(runs@[i as int].entries@[j as int] == *e);
                Some(s)
            },
            None => None,
        }
    } else if click_count == 4 {
        match find_run(runs, root) {
            Some(i) => Some(DomSelection::new(root, 0, runs[i].total_graphemes)),
            None => None,
        }
    } else {
        Some(DomSelection::new(root, flat_idx, flat_idx))
    }
}

// ── Pressing and releasing a button ─────────────────────────────────────────

/// What the window keeps between pointer events, floating-point geometry
/// aside.
pub struct PointerState {
    /// The node with keyboard focus.
    pub focused: Option<NodeId>,
    /// The node a button went down on, until it goes up.
    pub active: Option<NodeId>,
    /// The nodes the pointer is over: the path from the root to the topmost
    /// node under it.
    pub hovered: Vec<NodeId>,
    pub clicks: ClickTracker,
    /// When the last click was counted, in milliseconds of a monotonic clock.
    pub last_click_at: Option<u64>,
    /// The selection over a selectable subtree.
    pub view_selection: Option<DomSelection>,
    /// The input whose selection a drag extends.
    pub dragging_input: Option<NodeId>,
    /// The root of the subtree whose selection a drag extends.
    pub dragging_view_selection: Option<NodeId>,
}

/// A pointer state as plain values.
pub struct PointerView {
    pub focused: Option<NodeId>,
    pub active: Option<NodeId>,
    pub hovered: Seq<NodeId>,
    pub last_click: Option<NodeId>,
    pub click_count: u8,
    pub last_click_at: Option<u64>,
    pub view_selection: Option<DomSelection>,
    pub dragging_input: Option<NodeId>,
    pub dragging_view_selection: Option<NodeId>,
}

impl View for PointerState {
    type V = PointerView;

    open spec fn view(&self) -> PointerView {
        PointerView {
            focused: self.focused,
            active: self.active,
            hovered: self.hovered@,
            last_click: self.clicks.last_node,
            click_count: self.clicks.click_count,
            last_click_at: self.last_click_at,
            view_selection: self.view_selection,
            dragging_input: self.dragging_input,
            dragging_view_selection: self.dragging_view_selection,
        }
    }
}

/// What the node under the pointer is.
#[derive(Clone, Copy, Debug, PartialEq, Eq, Structural)]
pub enum PressTarget {
    /// A text input; `placed` when it has a hitbox, so that a caret can be
    /// placed in it.
    TextInput { placed: bool },
    /// A checkbox, and whether it is checked.
    Checkbox { checked: bool },
    /// Any other node; for a text node, the cluster under the pointer within
    /// its own text, when it can be found.
    Other { local_idx: Option<usize> },
}

/// What a button going down or up leads to, in order.
#[derive(Clone, Copy, Debug, PartialEq, Eq, Structural)]
pub enum PointerAction {
    /// Report a button going down on the node.
    Down(NodeId),
    /// Report a button going up on the node.
    Up(NodeId),
    /// Report a click on the node.
    Click(NodeId),
    /// Report that the node gained focus.
    Focus(NodeId),
    /// Report that the node lost focus.
    Blur(NodeId),
    /// The checkbox was toggled: set it to the value and report it.
    Toggle(NodeId, bool),
    /// Place the caret of the input by the click count: at the point, or
    /// select the word, the line, or everything.
    PlaceCaret(NodeId, u8),
}

/// The click count after a click on `node` (see `register_click`).
pub open spec fn next_click_count(v: PointerView, node: NodeId, since_last_ms: Option<u64>) -> u8 {
    if v.last_click == Some(node) && (since_last_ms matches Some(ms) && ms < MULTI_CLICK_MS) {
        if v.click_count + 1 < 4 {
            (v.click_count + 1) as u8
        } else {
            4u8
        }
    } else {
        1u8
    }
}

/// The time since the last counted click at `now_ms` (none before the first
/// click; zero if the clock reads earlier).
pub open spec fn since_last_click(v: PointerView, now_ms: u64) -> Option<u64> {
    match v.last_click_at {
        Some(t) => Some(if t <= now_ms { (now_ms - t) as u64 } else { 0u64 }),
        None => None,
    }
}

/// The state after a click on `node` is counted at `now_ms`.
pub open spec fn counted(v: PointerView, node: NodeId, now_ms: u64) -> PointerView {
    PointerView {
        last_click: Some(node),
        click_count: next_click_count(v, node, since_last_click(v, now_ms)),
        last_click_at: Some(now_ms),
        ..v
    }
}

/// The reports of focus moving to `node` (see `focus_transition`).
pub open spec fn focus_reports(old_focus: Option<NodeId>, node: NodeId) -> Seq<PointerAction> {
    if old_focus == Some(node) {
        Seq::empty()
    } else {
        match old_focus {
            Some(o) => seq![PointerAction::Blur(o), PointerAction::Focus(node)],
            None => seq![PointerAction::Focus(node)],
        }
    }
}

/// A left button going down on `top`:
/// - on a text input, the click is counted and the input gains focus; with a
///   hitbox, the view selection is cleared, the caret is placed by the count
///   and the input takes focus; either way a drag extends its selection;
/// - on a checkbox, it gains focus and the view selection is cleared;
/// - elsewhere the focused node is blurred; on a text node of a selectable
///   subtree whose cluster under the pointer is known, the click is counted,
///   the view selection is made by the count (`click_selection`, kept as it
///   was when that gives none) and a drag extends it; off selectable text the
///   view selection is cleared.
pub open spec fn left_press(
    v: PointerView,
    runs: Seq<TextSelectRun>,
    top: Option<NodeId>,
    target: PressTarget,
    now_ms: u64,
) -> (PointerView, Seq<PointerAction>) {
    match (top, target) {
        (Some(nid), PressTarget::TextInput { placed }) => {
            let v1 = counted(v, nid, now_ms);
            let reports = focus_reports(v.focused, nid);
            if placed {
                (
                    PointerView {
                        focused: Some(nid),
                        view_selection: None,
                        dragging_input: Some(nid),
                        ..v1
                    },
                    reports.push(PointerAction::PlaceCaret(nid, v1.click_count)),
                )
            } else {
                (PointerView { dragging_input: Some(nid), ..v1 }, reports)
            }
        },
        (Some(nid), PressTarget::Checkbox { .. }) => (
            PointerView { focused: Some(nid), view_selection: None, ..v },
            focus_reports(v.focused, nid),
        ),
        _ => {
            let blur = match v.focused {
                Some(o) => seq![PointerAction::Blur(o)],
                None => Seq::empty(),
            };
            let v1 = PointerView { focused: None, ..v };
            match top {
                Some(nid) => match entry_of(runs, nid) {
                    Some((root, e)) => match target {
                        PressTarget::Other { local_idx: Some(l) } => {
                            let flat = (e.flat_start + (if l < e.grapheme_count {
                                l
                            } else {
                                e.grapheme_count
                            })) as usize;
                            let v2 = counted(v1, nid, now_ms);
                            let sel = match click_selection(runs, nid, root, flat, v2.click_count) {
                                Some(s) => Some(s),
                                None => v2.view_selection,
                            };
                            (
                                PointerView {
                                    view_selection: sel,
                                    dragging_view_selection: Some(root),
                                    ..v2
                                },
                                blur,
                            )
                        },
                        _ => (v1, blur),
                    },
                    None => (PointerView { view_selection: None, ..v1 }, blur),
                },
                None => (PointerView { view_selection: None, ..v1 }, blur),
            }
        },
    }
}

/// A button going down or up, the pointer over `top` (see `mouse_button_step`).
pub open spec fn pointer_step(
    v: PointerView,
    runs: Seq<TextSelectRun>,
    pressed: bool,
    button: MouseButton,
    top: Option<NodeId>,
    target: PressTarget,
    now_ms: u64,
) -> (PointerView, Seq<PointerAction>) {
    if pressed {
        let down = match top {
            Some(nid) => seq![PointerAction::Down(nid)],
            None => Seq::empty(),
        };
        let v1 = PointerView { active: top, ..v };
        if button == MouseButton::Left {
            let (v2, more) = left_press(v1, runs, top, target, now_ms);
            (v2, down + more)
        } else {
            (v1, down)
        }
    } else {
        let up = match top {
            Some(nid) => seq![PointerAction::Up(nid)],
            None => Seq::empty(),
        };
        let clicked = v.active matches Some(a) && v.hovered.contains(a);
        let toggle = match (top, target) {
            (Some(nid), PressTarget::Checkbox { checked }) => if clicked && button == MouseButton::Left {
                seq![PointerAction::Toggle(nid, !checked)]
            } else {
                Seq::empty()
            },
            _ => Seq::empty(),
        };
        let click = match top {
            Some(nid) => if clicked {
                seq![PointerAction::Click(nid)]
            } else {
                Seq::empty()
            },
            None => Seq::empty(),
        };
        (
            PointerView { active: None, dragging_input: None, dragging_view_selection: None, ..v },
            up + toggle + click,
        )
    }
}

fn contains_node(v: &Vec<NodeId>, n: NodeId) -> (b: bool)
    ensures
        b == v@.contains(n),
{
    let len = v.len();
    for i in 0..len
        invariant
            len == v@.len(),
            forall|j: int| 0 <= j < i ==> v@[j] != n,
    {
        if v[i] == n {
            return true;
        }
    }
    false
}

fn push_focus_reports(out: &mut Vec<PointerAction>, old_focus: Option<NodeId>, node: NodeId)
    ensures
        final(out)@ == old(out)@ + focus_reports(old_focus, node),
{
    let (blur, focus) = focus_transition(old_focus, node);
    if let Some(o) = blur {
        out.push(PointerAction::Blur(o));
    }
    if let Some(f) = focus {
        out.push(PointerAction::Focus(f));
    }
    proof {
        assert(final(out)@ =~= old(out)@ + focus_reports(old_focus, node));
    }
}


impl PointerState {
    /// Counts a click on `node` at `now_ms` (see `counted`) and returns the
    /// click count.
    fn count_click(&mut self, node: NodeId, now_ms: u64) -> (count: u8)
        ensures
            final(self)@ == counted(old(self)@, node, now_ms),
            count == final(self)@.click_count,
    {
        let since = match self.last_click_at {
            Some(t) => Some(if t <= now_ms { now_ms - t } else { 0 }),
            None => None,
        };
        let count = self.clicks.register_click(node, since);
        self.last_click_at = Some(now_ms);
        count
    }
}

/// Decides what a mouse button going down (`pressed`) or up does, with the
/// pointer over `top`, of the kind `target`, at `now_ms` on a monotonic
/// clock: the state it leaves (see `pointer_step`) and the reports and
/// changes to carry out, in order. The window always redraws afterwards.
/// Scroll-thumb drags and the geometry of placing a caret are the window's.
pub fn mouse_button_step(
    state: &mut PointerState,
    runs: &[TextSelectRun],
    pressed: bool,
    button: MouseButton,
    top: Option<NodeId>,
    target: PressTarget,
    now_ms: u64,
) -> (r: (bool, Vec<PointerAction>))
    requires
        entries_fit(runs@),
    ensures
        r.0,
        (final(state)@, r.1@) == pointer_step(old(state)@, runs@, pressed, button, top, target, now_ms),
{
    let mut out: Vec<PointerAction> = Vec::new();
    if pressed {
        state.active = top;
        if let Some(nid) = top {
            out.push(PointerAction::Down(nid));
        }
        if button == MouseButton::Left {
            let ghost v1 = state@;
            let ghost down = out@;
            let old_focus = state.focused;
            match (top, target) {
                (Some(nid), PressTarget::TextInput { placed }) => {
                    let count = state.count_click(nid, now_ms);
                    push_focus_reports(&mut out, old_focus, nid);
                    if placed {
                        state.view_selection = None;
                        state.focused = Some(nid);
                        out.push(PointerAction::PlaceCaret(nid, count));
                    }
                    state.dragging_input = Some(nid);
                },
                (Some(nid), PressTarget::Checkbox { .. }) => {
                    push_focus_reports(&mut out, old_focus, nid);
                    state.view_selection = None;
                    state.focused = Some(nid);
                },
                _ => {
                    if let Some(o) = old_focus {
                        state.focused = None;
                        out.push(PointerAction::Blur(o));
                    }
                    match top {
                        Some(nid) => match find_run_entry_for_node(runs, nid) {
                            Some((i, j)) => {
                                let root = runs[i].root_id;
                                let e = &runs[i].entries[j];
                                match target {
                                    PressTarget::Other { local_idx: Some(l) } => {
                                        assert(e.flat_start + e.grapheme_count <= usize::MAX);
                                        let flat = flat_index_in_entry(e, l);
                                        let count = state.count_click(nid, now_ms);
                                        if let Some(sel) = view_click_selection(runs, nid, root, flat, count) {
                                            state.view_selection = Some(sel);
                                        }
                                        state.dragging_view_selection = Some(root);
                                    },
                                    _ => {},
                                }
                            },
                            None => {
                                state.view_selection = None;
                            },
                        },
                        None => {
                            state.view_selection = None;
                        },
                    }
                },
            }
            proof {
                let (v2, more) = left_press(v1, runs@, top, target, now_ms);
                assert(state@ == v2);
                assert(out@ =~= down + more);
            }
        }
    } else {
        if let Some(nid) = top {
            out.push(PointerAction::Up(nid));
        }
        let clicked = match state.active {
            Some(a) => contains_node(&state.hovered, a),
            None => false,
        };
        if clicked && button == MouseButton::Left {
            if let (Some(nid), PressTarget::Checkbox { checked }) = (top, target) {
                out.push(PointerAction::Toggle(nid, !checked));
            }
        }
        if clicked {
            if let Some(nid) = top {
                out.push(PointerAction::Click(nid));
            }
        }
        state.active = None;
        state.dragging_input = None;
        state.dragging_view_selection = None;
    }
    (true, out)
}

/// Releasing a button ends the press: no node stays active and no drag goes
/// on; a click is reported only when the node the button went down on is
/// still under the pointer, and a checkbox toggles only on such a click.
pub proof fn law_release_ends_press(
    v: PointerView,
    runs: Seq<TextSelectRun>,
    button: MouseButton,
    top: Option<NodeId>,
    target: PressTarget,
    now_ms: u64,
)
    ensures
        ({
            let (w, acts) = pointer_step(v, runs, false, button, top, target, now_ms);
            &&& w.active is None
            &&& w.dragging_input is None
            &&& w.dragging_view_selection is None
            &&& w.focused == v.focused
            &&& w.view_selection == v.view_selection
            &&& (exists|k: int| 0 <= k < acts.len() && (#[trigger] acts[k] is Click || acts[k] is Toggle))
                ==> (v.active matches Some(a) && v.hovered.contains(a))
        }),
{
    let (w, acts) = pointer_step(v, runs, false, button, top, target, now_ms);
    if !(v.active matches Some(a) && v.hovered.contains(a)) {
        let up = match top {
            Some(nid) => seq![PointerAction::Up(nid)],
            None => Seq::<PointerAction>::empty(),
        };
        assert(acts =~= up + Seq::<PointerAction>::empty() + Seq::<PointerAction>::empty());
    }
}

/// Focus never moves silently: whenever a button step takes focus away from
/// the node `o` that had it, the step reports `Blur(o)`; and a left press
/// that moves focus onto a text input or a checkbox `n` from another node
/// `o` reports, right after the press itself, `Blur(o)` and then `Focus(n)`.
pub proof fn law_focus_moves_are_reported(
    v: PointerView,
    runs: Seq<TextSelectRun>,
    pressed: bool,
    button: MouseButton,
    top: Option<NodeId>,
    target: PressTarget,
    now_ms: u64,
    o: NodeId,
    n: NodeId,
)
    ensures
        ({
            let (w, acts) = pointer_step(v, runs, pressed, button, top, target, now_ms);
            v.focused == Some(o) && w.focused != Some(o) ==> acts.contains(PointerAction::Blur(o))
        }),
        ({
            let (w, acts) = pointer_step(v, runs, pressed, button, top, target, now_ms);
            (pressed && button == MouseButton::Left && top == Some(n) && v.focused == Some(o) && o != n
                && (target is Checkbox || target == (PressTarget::TextInput { placed: true }))) ==> (acts.len()
                >= 3 && acts[0] == PointerAction::Down(n) && acts[1] == PointerAction::Blur(o) && acts[2]
                == PointerAction::Focus(n) && w.focused == Some(n))
        }),
{
    let (w, acts) = pointer_step(v, runs, pressed, button, top, target, now_ms);
    if pressed && button == MouseButton::Left {
        if let Some(o) = v.focused {
            let v1 = PointerView { active: top, ..v };
            let (w2, more) = left_press(v1, runs, top, target, now_ms);
            let down = match top {
                Some(nid) => seq![PointerAction::Down(nid)],
                None => Seq::<PointerAction>::empty(),
            };
            assert(acts == down + more);
            match (top, target) {
                (Some(nid), PressTarget::TextInput { placed }) => {
                    if o != nid {
                        let reports = seq![PointerAction::Blur(o), PointerAction::Focus(nid)];
                        assert(focus_reports(v1.focused, nid) == reports);
                        if placed {
                            assert(acts[1] == PointerAction::Blur(o));
                        } else {
                            assert(acts[1] == PointerAction::Blur(o));
                        }
                        assert(acts.contains(PointerAction::Blur(o)));
                    }
                },
                (Some(nid), PressTarget::Checkbox { .. }) => {
                    if o != nid {
                        assert(focus_reports(v1.focused, nid) == seq![PointerAction::Blur(o), PointerAction::Focus(nid)]);
                        assert(acts[1] == PointerAction::Blur(o));
                        assert(acts.contains(PointerAction::Blur(o)));
                    }
                },
                _ => {
                    let k = down.len() as int;
                    assert(acts[k] == PointerAction::Blur(o));
                    assert(acts.contains(PointerAction::Blur(o)));
                },
            }
        }
    }
}

} // verus!
