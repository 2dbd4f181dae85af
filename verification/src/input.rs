use vstd::prelude::*;

use crate::selection::{range_end, range_start, SelectionRange};
use crate::text_model::{
    is_line_break, no_line_breaks, clamp_pos, flat_of, line_count_of, line_len, remove_between, rowcol_of, word_end, word_start,
    TextModel,
};
use crate::textkit::{flatten, grapheme_clusters, push_char, strip_newlines, chars_without_newlines};

verus! {

// ── Edit events ──────────────────────────────────────────────────────────────

#[derive(Clone, Copy, Debug, PartialEq, Eq, Structural)]
pub enum EditKind {
    Insert,
    DeleteBackward,
    DeleteForward,
    DeleteWordBackward,
    DeleteWordForward,
}

/// An edit that changed the buffer.
#[derive(Clone, Debug)]
pub struct EditEvent {
    pub kind: EditKind,
    /// The text that was inserted, for insertions.
    pub inserted: Option<String>,
}

/// What an edit operation reports: its kind and the inserted text.
pub type EditReport = Option<(EditKind, Option<Seq<char>>)>;

/// The report that an optional edit event makes.
pub open spec fn edit_report(e: Option<EditEvent>) -> EditReport {
    match e {
        Some(ev) => Some(
            (
                ev.kind,
                match ev.inserted {
                    Some(s) => Some(s@),
                    None => None,
                },
            ),
        ),
        None => None,
    }
}

// ── Keys ─────────────────────────────────────────────────────────────────────

/// The named keys that an input reacts to; every other named key is `Other`.
#[derive(Clone, Copy, Debug, PartialEq, Eq, Structural)]
pub enum NamedKey {
    Backspace,
    Delete,
    ArrowLeft,
    ArrowRight,
    ArrowUp,
    ArrowDown,
    Home,
    End,
    Space,
    Escape,
    Enter,
    Tab,
    F5,
    Other,
}

/// A logical key: the text it types, a named key, or an unidentified key.
#[derive(Clone, Debug)]
pub enum Key {
    Character(String),
    Named(NamedKey),
    Unidentified,
}

/// Outcome of a key press on an input.
pub enum KeyResult {
    Edit(EditEvent),
    Blur,
    Handled,
    Ignored,
}

/// Spec form of a key outcome.
pub enum KeyOutcome {
    Edit(EditKind, Option<Seq<char>>),
    Blur,
    Handled,
    Ignored,
}

pub open spec fn key_outcome(r: KeyResult) -> KeyOutcome {
    match r {
        KeyResult::Edit(ev) => KeyOutcome::Edit(
            ev.kind,
            match ev.inserted {
                Some(s) => Some(s@),
                None => None,
            },
        ),
        KeyResult::Blur => KeyOutcome::Blur,
        KeyResult::Handled => KeyOutcome::Handled,
        KeyResult::Ignored => KeyOutcome::Ignored,
    }
}

/// The bit of the modifier mask that stands for Control.
pub open spec fn ctrl_held(modifiers: u32) -> bool {
    modifiers & 1 != 0
}

/// The bit of the modifier mask that stands for Shift.
pub open spec fn shift_held(modifiers: u32) -> bool {
    modifiers & 4 != 0
}

// ── Range providers ─────────────────────────────────────────────────────────

/// Where an input keeps its selection.
pub trait RangeProvider {
    spec fn range_view(&self) -> SelectionRange;

    fn get_range(&self) -> (r: SelectionRange)
        ensures
            r == self.range_view(),
    ;

    fn set_range(&mut self, range: SelectionRange)
        ensures
            final(self).range_view() == range,
    ;
}

/// A range provider that keeps the selection in a field.
#[derive(Debug, Default, Clone)]
pub struct DefaultRangeProvider {
    pub range: SelectionRange,
}

impl DefaultRangeProvider {
    pub fn new() -> (p: Self)
        ensures
            p.range == (SelectionRange { anchor: 0, active: 0 }),
    {
        DefaultRangeProvider { range: SelectionRange::new(0, 0) }
    }
}

impl RangeProvider for DefaultRangeProvider {
    open spec fn range_view(&self) -> SelectionRange {
        self.range
    }

    fn get_range(&self) -> (r: SelectionRange) {
        self.range
    }

    fn set_range(&mut self, range: SelectionRange) {
        self.range = range;
    }
}

// ── Abstract state and the operations on it ────────────────────────────────

/// What an input holds, as mathematical values.
pub struct InputView {
    pub text: Seq<Seq<char>>,
    pub limit: Option<usize>,
    pub range: SelectionRange,
    pub placeholder: Seq<char>,
    pub focused: bool,
    pub disabled: bool,
    pub secure: bool,
    pub multiline: bool,
    pub sticky_col: Option<usize>,
}

pub open spec fn cursor_at(p: int) -> SelectionRange {
    SelectionRange { anchor: p as usize, active: p as usize }
}

pub open spec fn with_text_range(v: InputView, t: Seq<Seq<char>>, r: SelectionRange) -> InputView {
    InputView { text: t, range: r, ..v }
}

pub open spec fn with_range(v: InputView, r: SelectionRange) -> InputView {
    InputView { range: r, ..v }
}

pub open spec fn without_sticky(v: InputView) -> InputView {
    InputView { sticky_col: None, ..v }
}

/// Deletes a non-empty selection and puts the cursor at its start.
pub open spec fn delete_selection_of(v: InputView) -> InputView {
    if v.range.anchor != v.range.active {
        with_text_range(
            v,
            remove_between(v.text, range_start(v.range) as int, range_end(v.range) as int),
            cursor_at(range_start(v.range) as int),
        )
    } else {
        v
    }
}

/// Removing a stretch of clusters from a buffer without line breaks leaves
/// none.
proof fn lemma_removal_keeps_no_breaks(before: Seq<Seq<char>>, a: int, b: int)
    requires
        no_line_breaks(before),
        0 <= a,
    ensures
        no_line_breaks(remove_between(before, a, b)),
{
    let after = remove_between(before, a, b);
    let bb = clamp_pos(before, b);
    let aa = clamp_pos(before, a);
    if aa < bb && 0 <= aa {
        assert forall|i: int| 0 <= i < after.len() implies !is_line_break(#[trigger] after[i]) by {
            if i < aa {
                assert(after[i] == before[i]);
            } else {
                assert(after[i] == before[i - aa + bb]);
            }
        }
    }
}

/// Whether `extra` more clusters fit under the limit.
pub open spec fn fits(len: nat, extra: nat, limit: Option<usize>) -> bool {
    match limit {
        Some(m) => len + extra <= m,
        None => true,
    }
}

/// The text an input accepts from `text`: all of it when multiline, else
/// without line feeds and carriage returns.
pub open spec fn accepted_text(multiline: bool, text: Seq<char>) -> Seq<char> {
    if multiline {
        text
    } else {
        strip_newlines(text)
    }
}

/// Typing `text`: replaces the selection with the clusters of the accepted
/// text and puts the cursor after them.
pub open spec fn op_insert(v: InputView, text: Seq<char>) -> (InputView, EditReport) {
    let v0 = without_sticky(v);
    let input = accepted_text(v0.multiline, text);
    if v0.disabled {
        (v0, None)
    } else if !v0.multiline && input.len() == 0 {
        (v0, None)
    } else {
        let v1 = delete_selection_of(v0);
        let ins = grapheme_clusters(input);
        let p = clamp_pos(v1.text, v1.range.active as int);
        if ins.len() > 0 && fits(v1.text.len(), ins.len(), v1.limit) {
            (
                with_text_range(v1, v1.text.take(p) + ins + v1.text.skip(p), cursor_at(p + ins.len())),
                Some((EditKind::Insert, Some(input))),
            )
        } else {
            (v1, None)
        }
    }
}

/// What a deletion of the given kind does to the buffer at a collapsed cursor:
/// the new buffer and cursor, or `None` when there is nothing to delete.
pub open spec fn buffer_delete(gs: Seq<Seq<char>>, pos: int, kind: EditKind) -> Option<
    (Seq<Seq<char>>, int),
> {
    let p = clamp_pos(gs, pos);
    match kind {
        EditKind::DeleteBackward => if p > 0 {
            Some((remove_between(gs, p - 1, p), p - 1))
        } else {
            None
        },
        EditKind::DeleteForward => if p < gs.len() {
            Some((remove_between(gs, p, p + 1), p))
        } else {
            None
        },
        EditKind::DeleteWordBackward => {
            let w = word_start(gs, pos);
            if w < p {
                Some((remove_between(gs, w, p), w))
            } else {
                None
            }
        },
        EditKind::DeleteWordForward => {
            let w = word_end(gs, pos);
            if p < w {
                Some((remove_between(gs, p, w), p))
            } else {
                None
            }
        },
        EditKind::Insert => None,
    }
}

/// A deletion: removes a non-empty selection, or else what `buffer_delete`
/// removes at the cursor.
pub open spec fn op_delete(v: InputView, kind: EditKind) -> (InputView, EditReport) {
    let v0 = without_sticky(v);
    if v0.disabled {
        (v0, None)
    } else if v0.range.anchor != v0.range.active {
        (delete_selection_of(v0), Some((kind, None)))
    } else {
        match buffer_delete(v0.text, v0.range.active as int, kind) {
            Some((t, c)) => (with_text_range(v0, t, cursor_at(c)), Some((kind, None))),
            None => (v0, None),
        }
    }
}

/// Moves the active end to `pos`; without `extend` the anchor follows.
pub open spec fn move_active(r: SelectionRange, pos: int, extend: bool) -> SelectionRange {
    if extend {
        SelectionRange { active: pos as usize, ..r }
    } else {
        cursor_at(pos)
    }
}

pub open spec fn op_move_left(v: InputView, extend: bool) -> InputView {
    let r = v.range;
    if !extend && r.anchor != r.active {
        with_range(v, cursor_at(range_start(r) as int))
    } else if r.active > 0 {
        with_range(v, move_active(r, r.active - 1, extend))
    } else {
        v
    }
}

pub open spec fn op_move_right(v: InputView, extend: bool) -> InputView {
    let r = v.range;
    if !extend && r.anchor != r.active {
        with_range(v, cursor_at(range_end(r) as int))
    } else if r.active < v.text.len() {
        with_range(v, move_active(r, r.active + 1, extend))
    } else {
        v
    }
}

pub open spec fn op_move_word_left(v: InputView, extend: bool) -> InputView {
    with_range(v, move_active(v.range, word_start(v.text, v.range.active as int), extend))
}

pub open spec fn op_move_word_right(v: InputView, extend: bool) -> InputView {
    with_range(v, move_active(v.range, word_end(v.text, v.range.active as int), extend))
}

pub open spec fn op_move_home(v: InputView, extend: bool) -> InputView {
    let row = rowcol_of(v.text, v.range.active as int).0;
    with_range(v, move_active(v.range, flat_of(v.text, row, 0), extend))
}

pub open spec fn op_move_end(v: InputView, extend: bool) -> InputView {
    let row = rowcol_of(v.text, v.range.active as int).0;
    with_range(v, move_active(v.range, flat_of(v.text, row, line_len(v.text, row)), extend))
}

pub open spec fn op_move_absolute_home(v: InputView, extend: bool) -> InputView {
    with_range(v, move_active(v.range, 0, extend))
}

pub open spec fn op_move_absolute_end(v: InputView, extend: bool) -> InputView {
    with_range(v, move_active(v.range, v.text.len() as int, extend))
}

/// Up one line, to the sticky column (or the current one) clamped to the
/// line; on the first line, to the start of the buffer. Reports whether the
/// cursor changed lines.
pub open spec fn op_move_up(v: InputView, extend: bool, sticky: Option<usize>) -> (InputView, bool) {
    let (row, col) = rowcol_of(v.text, v.range.active as int);
    if row == 0 {
        (with_range(v, move_active(v.range, 0, extend)), false)
    } else {
        let target = match sticky {
            Some(c) => c as int,
            None => col,
        };
        (with_range(v, move_active(v.range, flat_of(v.text, (row - 1) as nat, target), extend)), true)
    }
}

/// Down one line, like `op_move_up`; on the last line, to the end of the
/// buffer.
pub open spec fn op_move_down(v: InputView, extend: bool, sticky: Option<usize>) -> (InputView, bool) {
    let (row, col) = rowcol_of(v.text, v.range.active as int);
    if row + 1 >= line_count_of(v.text) {
        (with_range(v, move_active(v.range, v.text.len() as int, extend)), false)
    } else {
        let target = match sticky {
            Some(c) => c as int,
            None => col,
        };
        (with_range(v, move_active(v.range, flat_of(v.text, row + 1, target), extend)), true)
    }
}

pub open spec fn op_move_to(v: InputView, pos: int, extend: bool) -> InputView {
    with_range(v, move_active(v.range, clamp_pos(v.text, pos), extend))
}

pub open spec fn op_select_all(v: InputView) -> InputView {
    with_range(v, SelectionRange { anchor: 0, active: v.text.len() as usize })
}

/// Key handling: the edit or movement that a key stands for.
pub open spec fn op_key(v: InputView, key: Key, modifiers: u32) -> (InputView, KeyOutcome) {
    let shift = shift_held(modifiers);
    let ctrl = ctrl_held(modifiers);
    if v.disabled {
        (v, KeyOutcome::Ignored)
    } else if !v.multiline && key == Key::Named(NamedKey::Enter) {
        (v, KeyOutcome::Ignored)
    } else {
        let v0 = without_sticky(v);
        match key {
            Key::Character(ch) => if ctrl {
                if ch@ == seq!['a'] || ch@ == seq!['A'] {
                    (op_select_all(v0), KeyOutcome::Handled)
                } else {
                    (v0, KeyOutcome::Ignored)
                }
            } else {
                edit_outcome(op_insert(v0, ch@), KeyOutcome::Handled)
            },
            Key::Named(named) => match named {
                NamedKey::Backspace => edit_outcome(
                    op_delete(
                        v0,
                        if ctrl {
                            EditKind::DeleteWordBackward
                        } else {
                            EditKind::DeleteBackward
                        },
                    ),
                    KeyOutcome::Handled,
                ),
                NamedKey::Delete => edit_outcome(
                    op_delete(
                        v0,
                        if ctrl {
                            EditKind::DeleteWordForward
                        } else {
                            EditKind::DeleteForward
                        },
                    ),
                    KeyOutcome::Handled,
                ),
                NamedKey::ArrowLeft => (
                    if ctrl {
                        op_move_word_left(v0, shift)
                    } else {
                        op_move_left(v0, shift)
                    },
                    KeyOutcome::Handled,
                ),
                NamedKey::ArrowRight => (
                    if ctrl {
                        op_move_word_right(v0, shift)
                    } else {
                        op_move_right(v0, shift)
                    },
                    KeyOutcome::Handled,
                ),
                NamedKey::Home => (
                    if ctrl {
                        op_move_absolute_home(v0, shift)
                    } else {
                        op_move_home(v0, shift)
                    },
                    KeyOutcome::Handled,
                ),
                NamedKey::End => (
                    if ctrl {
                        op_move_absolute_end(v0, shift)
                    } else {
                        op_move_end(v0, shift)
                    },
                    KeyOutcome::Handled,
                ),
                NamedKey::Space => edit_outcome(op_insert(v0, seq![' ']), KeyOutcome::Handled),
                NamedKey::Escape => (v0, KeyOutcome::Blur),
                NamedKey::Enter => edit_outcome(op_insert(v0, seq!['\n']), KeyOutcome::Ignored),
                NamedKey::Tab => edit_outcome(
                    op_insert(v0, seq![' ', ' ', ' ', ' ']),
                    KeyOutcome::Ignored,
                ),
                _ => (v0, KeyOutcome::Ignored),
            },
            Key::Unidentified => (v0, KeyOutcome::Ignored),
        }
    }
}

/// An edit's outcome as a key outcome: the edit, or `otherwise` when nothing
/// changed.
pub open spec fn edit_outcome(r: (InputView, EditReport), otherwise: KeyOutcome) -> (
    InputView,
    KeyOutcome,
) {
    match r.1 {
        Some((kind, ins)) => (r.0, KeyOutcome::Edit(kind, ins)),
        None => (r.0, otherwise),
    }
}

/// The blink-restart count after one more restart (wrapping).
pub open spec fn restarted(n: u64) -> u64 {
    if n < u64::MAX {
        (n + 1) as u64
    } else {
        0
    }
}

/// Whether a key restarts the caret blink: a movement or select-all key,
/// or a key whose edit changed the text.
pub open spec fn key_restarts_blink(v: InputView, key: Key, modifiers: u32) -> bool {
    if v.disabled || (!v.multiline && key == Key::Named(NamedKey::Enter)) {
        false
    } else {
        let edited = op_key(v, key, modifiers).1 is Edit;
        match key {
            Key::Character(ch) => if ctrl_held(modifiers) {
                ch@ == seq!['a'] || ch@ == seq!['A']
            } else {
                edited
            },
            Key::Named(named) => match named {
                NamedKey::ArrowLeft | NamedKey::ArrowRight | NamedKey::Home | NamedKey::End => true,
                NamedKey::Backspace | NamedKey::Delete | NamedKey::Space | NamedKey::Enter
                | NamedKey::Tab => edited,
                _ => false,
            },
            Key::Unidentified => false,
        }
    }
}

// ── The input state ─────────────────────────────────────────────────────────

/// Editing state of a text input: its buffer, selection and flags.
pub struct BaseInputState<TRangeProvider: RangeProvider> {
    pub model: TextModel,
    pub range_provider: TRangeProvider,
    pub placeholder: String,
    pub focused: bool,
    pub disabled: bool,
    pub secure: bool,
    pub multiline: bool,
    /// Preserved column for vertical navigation, in clusters.
    pub sticky_col: Option<usize>,
    /// How many times the caret blink was restarted (wrapping); the window
    /// restarts its blink clock whenever this changes.
    pub blink_resets: u64,
}

/// The input state with its selection kept in a field.
pub type InputState = BaseInputState<DefaultRangeProvider>;

impl<TRangeProvider: RangeProvider> View for BaseInputState<TRangeProvider> {
    type V = InputView;

    open spec fn view(&self) -> InputView {
        InputView {
            text: self.model@,
            limit: self.model.limit(),
            range: self.range_provider.range_view(),
            placeholder: self.placeholder@,
            focused: self.focused,
            disabled: self.disabled,
            secure: self.secure,
            multiline: self.multiline,
            sticky_col: self.sticky_col,
        }
    }
}

pub(crate) fn is_letter_a(ch: &String) -> (b: bool)
    ensures
        b == (ch@ == seq!['a'] || ch@ == seq!['A']),
{
    let s = ch.as_str();
    if s.unicode_len() != 1 {
        proof {
            assert(ch@ != seq!['a']);
            assert(ch@ != seq!['A']);
        }
        return false;
    }
    let c = s.get_char(0);
    proof {
        if c == 'a' {
            assert(ch@ =~= seq!['a']);
        } else if c == 'A' {
            assert(ch@ =~= seq!['A']);
        } else {
            assert(ch@ != seq!['a']);
            assert(ch@ != seq!['A']);
        }
    }
    c == 'a' || c == 'A'
}

impl Default for BaseInputState<DefaultRangeProvider> {
    /// An empty multiline input (see `new_default`).
    fn default() -> (s: Self)
        ensures
            s@.text == Seq::<Seq<char>>::empty(),
            s@.limit is None,
            s@.range == cursor_at(0),
            s@.placeholder == Seq::<char>::empty(),
            !s@.focused && !s@.disabled && !s@.secure && s@.multiline,
            s@.sticky_col is None,
    {
        Self::new_default()
    }
}

impl InputState {
    /// An empty multiline input with the selection kept in a field.
    pub fn new_default() -> (s: Self)
        ensures
            s@.text == Seq::<Seq<char>>::empty(),
            s@.limit is None,
            s@.range == cursor_at(0),
            s@.placeholder == Seq::<char>::empty(),
            !s@.focused && !s@.disabled && !s@.secure && s@.multiline,
            s@.sticky_col is None,
    {
        Self::new(DefaultRangeProvider::new())
    }
}

impl<TRangeProvider: RangeProvider> BaseInputState<TRangeProvider> {
    /// An empty multiline input with the given range provider.
    pub fn new(range_provider: TRangeProvider) -> (s: Self)
        ensures
            s@.text == Seq::<Seq<char>>::empty(),
            s@.limit is None,
            s@.range == range_provider.range_view(),
            s@.placeholder == Seq::<char>::empty(),
            !s@.focused && !s@.disabled && !s@.secure && s@.multiline,
            s@.sticky_col is None,
            s.range_provider == range_provider,
            s.blink_resets == 0,
    {
        Self {
            model: TextModel::new(),
            range_provider,
            placeholder: String::new(),
            focused: false,
            disabled: false,
            secure: false,
            multiline: true,
            sticky_col: None,
            blink_resets: 0,
        }
    }

    pub fn set_range_provider(&mut self, provider: TRangeProvider)
        ensures
            final(self)@ == with_range(old(self)@, provider.range_view()),
            final(self).range_provider == provider,
            final(self).blink_resets == old(self).blink_resets,
    {
        self.range_provider = provider;
    }

    pub fn range(&self) -> (r: SelectionRange)
        ensures
            r == self@.range,
    {
        self.range_provider.get_range()
    }

    /// Restarts the caret blink.
    pub fn reset_blink(&mut self)
        ensures
            final(self)@ == old(self)@,
            final(self).blink_resets == restarted(old(self).blink_resets),
    {
        self.blink_resets = if self.blink_resets < u64::MAX {
            self.blink_resets + 1
        } else {
            0
        };
    }

    /// Replaces the selection as given, without clamping.
    pub fn set_range(&mut self, range: SelectionRange)
        ensures
            final(self)@ == with_range(old(self)@, range),
            final(self).blink_resets == old(self).blink_resets,
    {
        self.range_provider.set_range(range);
    }

    /// Collapses the selection at `pos`, without clamping.
    pub fn set_cursor(&mut self, pos: usize)
        ensures
            final(self)@ == with_range(old(self)@, cursor_at(pos as int)),
            final(self).blink_resets == old(self).blink_resets,
    {
        let mut range = self.range();
        range.set_cursor(pos);
        self.set_range(range);
    }

    /// Deletes a non-empty selection. Returns whether something was deleted.
    fn delete_selection(&mut self) -> (b: bool)
        ensures
            final(self)@ == delete_selection_of(old(self)@),
            b == (old(self)@.range.anchor != old(self)@.range.active),
            final(self).blink_resets == old(self).blink_resets,
    {
        let mut range = self.range_provider.get_range();
        if range.is_collapsed() {
            return false;
        }
        let start = range.start();
        let end = range.end();
        self.model.delete_range(start, end);
        range.set_cursor(start);
        self.set_range(range);
        true
    }

    /// The selected text; empty when the selection is collapsed.
    pub fn selected_text(&self) -> (s: String)
        ensures
            s@ == (if self@.range.anchor == self@.range.active {
                Seq::empty()
            } else {
                crate::text_model::text_between(
                    self@.text,
                    range_start(self@.range) as int,
                    range_end(self@.range) as int,
                )
            }),
    {
        let range = self.range();
        if range.is_collapsed() {
            return String::new();
        }
        self.model.text_in_range(range.start(), range.end())
    }

    /// The whole text.
    pub fn text_content(&self) -> (s: String)
        ensures
            s@ == flatten(self@.text),
    {
        self.model.text()
    }

    /// Types `text` over the selection (see `op_insert`).
    pub fn insert_text(&mut self, text: &str) -> (r: Option<EditEvent>)
        ensures
            (final(self)@, edit_report(r)) == op_insert(old(self)@, text@),
            r is Some ==> ({
                let mid = delete_selection_of(without_sticky(old(self)@));
                let p = clamp_pos(mid.text, mid.range.active as int);
                flatten(final(self)@.text) == flatten(mid.text.take(p)) + accepted_text(
                    old(self)@.multiline,
                    text@,
                ) + flatten(mid.text.skip(p))
            }),
            !old(self)@.multiline && no_line_breaks(old(self)@.text) ==> no_line_breaks(
                final(self)@.text,
            ),
            final(self).blink_resets == (if r is Some { restarted(old(self).blink_resets) } else { old(self).blink_resets }),
    {
        self.sticky_col = None;
        if self.disabled {
            return None;
        }
        let filtered;
        let input: &str = if !self.multiline {
            filtered = chars_without_newlines(text);
            if filtered.as_str().unicode_len() == 0 {
                return None;
            }
            filtered.as_str()
        } else {
            text
        };
        assert(input@ == accepted_text(self.multiline, text@));
        self.delete_selection();
        proof {
            let r0 = old(self)@.range;
            if !self.multiline && no_line_breaks(old(self)@.text) && r0.anchor != r0.active {
                lemma_removal_keeps_no_breaks(
                    old(self)@.text,
                    range_start(r0) as int,
                    range_end(r0) as int,
                );
            }
        }
        let range = self.range();
        let pos = range.active;
        let ghost mid = self@.text;
        match self.model.insert(pos, input) {
            Some(new_pos) => {
                proof {
                    let p = clamp_pos(mid, pos as int);
                    let ins = grapheme_clusters(input@);
                    crate::text_model::lemma_flatten_append(mid.take(p) + ins, mid.skip(p));
                    crate::text_model::lemma_flatten_append(mid.take(p), ins);
                    if !self.multiline && no_line_breaks(old(self)@.text) {
                        crate::textkit::lemma_strip_newlines_has_none(text@);
                        assert forall|i: int| 0 <= i < ins.len() implies !is_line_break(
                            #[trigger] ins[i],
                        ) by {
                            if is_line_break(ins[i]) {
                                let j = ins[i].len() - 1;
                                assert(ins[i][j] == '\n');
                                crate::textkit::lemma_flatten_contains(ins, i, j);
                            }
                        }
                        let t = self@.text;
                        assert(t =~= mid.take(p) + ins + mid.skip(p));
                        assert forall|i: int| 0 <= i < t.len() implies !is_line_break(
                            #[trigger] t[i],
                        ) by {
                            if i < p {
                                assert(t[i] == mid[i]);
                            } else if i < p + ins.len() {
                                assert(t[i] == ins[i - p]);
                            } else {
                                assert(t[i] == mid[i - ins.len()]);
                            }
                        }
                    }
                }
                self.set_cursor(new_pos);
                self.reset_blink();
                Some(EditEvent { kind: EditKind::Insert, inserted: Some(input.to_owned()) })
            },
            None => None,
        }
    }

    fn delete_with(&mut self, kind: EditKind) -> (r: Option<EditEvent>)
        requires
            kind != EditKind::Insert,
        ensures
            (final(self)@, edit_report(r)) == op_delete(old(self)@, kind),
            final(self).blink_resets == (if r is Some { restarted(old(self).blink_resets) } else { old(self).blink_resets }),
    {
        self.sticky_col = None;
        if self.disabled {
            return None;
        }
        if self.delete_selection() {
            self.reset_blink();
            return Some(EditEvent { kind, inserted: None });
        }
        let range = self.range();
        let res = match kind {
            EditKind::DeleteBackward => self.model.delete_backward(range.active),
            EditKind::DeleteForward => self.model.delete_forward(range.active),
            EditKind::DeleteWordBackward => self.model.delete_word_backward(range.active),
            _ => self.model.delete_word_forward(range.active),
        };
        match res {
            Some(new_pos) => {
                self.set_cursor(new_pos);
                self.reset_blink();
                Some(EditEvent { kind, inserted: None })
            },
            None => None,
        }
    }

    pub fn delete_backward(&mut self) -> (r: Option<EditEvent>)
        ensures
            (final(self)@, edit_report(r)) == op_delete(old(self)@, EditKind::DeleteBackward),
            final(self).blink_resets == (if r is Some { restarted(old(self).blink_resets) } else { old(self).blink_resets }),
    {
        self.delete_with(EditKind::DeleteBackward)
    }

    pub fn delete_forward(&mut self) -> (r: Option<EditEvent>)
        ensures
            (final(self)@, edit_report(r)) == op_delete(old(self)@, EditKind::DeleteForward),
            final(self).blink_resets == (if r is Some { restarted(old(self).blink_resets) } else { old(self).blink_resets }),
    {
        self.delete_with(EditKind::DeleteForward)
    }

    pub fn delete_word_backward(&mut self) -> (r: Option<EditEvent>)
        ensures
            (final(self)@, edit_report(r)) == op_delete(old(self)@, EditKind::DeleteWordBackward),
            final(self).blink_resets == (if r is Some { restarted(old(self).blink_resets) } else { old(self).blink_resets }),
    {
        self.delete_with(EditKind::DeleteWordBackward)
    }

    pub fn delete_word_forward(&mut self) -> (r: Option<EditEvent>)
        ensures
            (final(self)@, edit_report(r)) == op_delete(old(self)@, EditKind::DeleteWordForward),
            final(self).blink_resets == (if r is Some { restarted(old(self).blink_resets) } else { old(self).blink_resets }),
    {
        self.delete_with(EditKind::DeleteWordForward)
    }

    fn set_active(&mut self, pos: usize, extend: bool)
        ensures
            final(self)@ == with_range(old(self)@, move_active(old(self)@.range, pos as int, extend)),
            final(self).blink_resets == old(self).blink_resets,
    {
        let mut range = self.range();
        range.active = pos;
        if !extend {
            range.anchor = pos;
        }
        self.set_range(range);
    }

    // ── Movement ────────────────────────────────────────────────────────

    pub fn move_left(&mut self, extend: bool)
        ensures
            final(self)@ == op_move_left(old(self)@, extend),
            final(self).blink_resets == restarted(old(self).blink_resets),
    {
        self.reset_blink();
        let range = self.range();
        if !extend && !range.is_collapsed() {
            self.set_cursor(range.start());
        } else if range.active > 0 {
            self.set_active(range.active - 1, extend);
        }
    }

    pub fn move_right(&mut self, extend: bool)
        ensures
            final(self)@ == op_move_right(old(self)@, extend),
            final(self).blink_resets == restarted(old(self).blink_resets),
    {
        self.reset_blink();
        let range = self.range();
        let count = self.model.grapheme_count();
        if !extend && !range.is_collapsed() {
            self.set_cursor(range.end());
        } else if range.active < count {
            self.set_active(range.active + 1, extend);
        }
    }

    pub fn move_word_left(&mut self, extend: bool)
        ensures
            final(self)@ == op_move_word_left(old(self)@, extend),
            final(self).blink_resets == restarted(old(self).blink_resets),
    {
        self.reset_blink();
        let range = self.range();
        let pos = self.model.find_word_start(range.active);
        self.set_active(pos, extend);
    }

    pub fn move_word_right(&mut self, extend: bool)
        ensures
            final(self)@ == op_move_word_right(old(self)@, extend),
            final(self).blink_resets == restarted(old(self).blink_resets),
    {
        self.reset_blink();
        let range = self.range();
        let pos = self.model.find_word_end(range.active);
        self.set_active(pos, extend);
    }

    pub fn move_home(&mut self, extend: bool)
        ensures
            final(self)@ == op_move_home(old(self)@, extend),
            final(self).blink_resets == restarted(old(self).blink_resets),
    {
        self.reset_blink();
        let range = self.range();
        let (row, _) = self.model.flat_to_rowcol(range.active);
        let flat = self.model.rowcol_to_flat(row, 0);
        self.set_active(flat, extend);
    }

    pub fn move_end(&mut self, extend: bool)
        ensures
            final(self)@ == op_move_end(old(self)@, extend),
            final(self).blink_resets == restarted(old(self).blink_resets),
    {
        self.reset_blink();
        let range = self.range();
        let (row, _) = self.model.flat_to_rowcol(range.active);
        let line_len = self.model.line_grapheme_count(row);
        let flat = self.model.rowcol_to_flat(row, line_len);
        self.set_active(flat, extend);
    }

    pub fn move_absolute_home(&mut self, extend: bool)
        ensures
            final(self)@ == op_move_absolute_home(old(self)@, extend),
            final(self).blink_resets == restarted(old(self).blink_resets),
    {
        self.reset_blink();
        self.set_active(0, extend);
    }

    pub fn move_absolute_end(&mut self, extend: bool)
        ensures
            final(self)@ == op_move_absolute_end(old(self)@, extend),
            final(self).blink_resets == restarted(old(self).blink_resets),
    {
        self.reset_blink();
        let count = self.model.grapheme_count();
        self.set_active(count, extend);
    }

    pub fn move_up(&mut self, extend: bool, sticky_col: Option<usize>) -> (moved: bool)
        ensures
            (final(self)@, moved) == op_move_up(old(self)@, extend, sticky_col),
            final(self).blink_resets == old(self).blink_resets,
    {
        let range = self.range();
        let (row, col) = self.model.flat_to_rowcol(range.active);
        if row == 0 {
            self.set_active(0, extend);
            return false;
        }
        let target_col = match sticky_col {
            Some(c) => c,
            None => col,
        };
        let flat = self.model.rowcol_to_flat(row - 1, target_col);
        self.set_active(flat, extend);
        true
    }

    pub fn move_down(&mut self, extend: bool, sticky_col: Option<usize>) -> (moved: bool)
        ensures
            (final(self)@, moved) == op_move_down(old(self)@, extend, sticky_col),
            final(self).blink_resets == old(self).blink_resets,
    {
        let range = self.range();
        let (row, col) = self.model.flat_to_rowcol(range.active);
        let (_, line_stop) = self.model.line_at(range.active);
        let count = self.model.grapheme_count();
        proof {
            let p = clamp_pos(self@.text, range.active as int);
            crate::text_model::lemma_rows_bounded(self@.text, range.active as int);
            crate::text_model::lemma_last_line(self@.text, p);
            crate::text_model::lemma_line_end_bounds(self@.text, p);
        }
        if line_stop >= count {
            self.set_active(count, extend);
            return false;
        }
        let target_col = match sticky_col {
            Some(c) => c,
            None => col,
        };
        let flat = self.model.rowcol_to_flat(row + 1, target_col);
        self.set_active(flat, extend);
        true
    }

    /// Moves the active end to `pos`, clamped to the buffer.
    pub fn move_to(&mut self, pos: usize, extend: bool)
        ensures
            final(self)@ == op_move_to(old(self)@, pos as int, extend),
            final(self).blink_resets == restarted(old(self).blink_resets),
    {
        self.reset_blink();
        let count = self.model.grapheme_count();
        let p = if pos < count {
            pos
        } else {
            count
        };
        self.set_active(p, extend);
    }

    /// Sets both ends, each clamped to the buffer.
    pub fn set_selection(&mut self, anchor: usize, active: usize)
        ensures
            final(self)@ == with_range(
                old(self)@,
                SelectionRange {
                    anchor: clamp_pos(old(self)@.text, anchor as int) as usize,
                    active: clamp_pos(old(self)@.text, active as int) as usize,
                },
            ),
            final(self).blink_resets == restarted(old(self).blink_resets),
    {
        self.reset_blink();
        let max = self.grapheme_count();
        let a = if anchor < max {
            anchor
        } else {
            max
        };
        let b = if active < max {
            active
        } else {
            max
        };
        self.set_range(SelectionRange::new(a, b));
    }

    pub fn select_all(&mut self)
        ensures
            final(self)@ == op_select_all(old(self)@),
            final(self).blink_resets == restarted(old(self).blink_resets),
    {
        self.reset_blink();
        let count = self.model.grapheme_count();
        self.set_range(SelectionRange::new(0, count));
    }

    pub fn word_at(&self, grapheme_idx: usize) -> (r: (usize, usize))
        ensures
            r.0 == crate::text_model::word_range(self@.text, grapheme_idx as int).0,
            r.1 == crate::text_model::word_range(self@.text, grapheme_idx as int).1,
    {
        self.model.word_at(grapheme_idx)
    }

    pub fn line_at(&self, grapheme_idx: usize) -> (r: (usize, usize))
        ensures
            r.0 == crate::text_model::line_begin(
                self@.text,
                clamp_pos(self@.text, grapheme_idx as int),
            ),
            r.1 == crate::text_model::line_end(self@.text, clamp_pos(self@.text, grapheme_idx as int)),
    {
        self.model.line_at(grapheme_idx)
    }

    /// Replaces the text; both ends of the selection are clamped to it.
    pub fn set_value(&mut self, value: String)
        ensures
            final(self)@ == with_text_range(
                old(self)@,
                grapheme_clusters(value@),
                SelectionRange {
                    anchor: clamp_pos(grapheme_clusters(value@), old(self)@.range.anchor as int) as usize,
                    active: clamp_pos(grapheme_clusters(value@), old(self)@.range.active as int) as usize,
                },
            ),
            flatten(final(self)@.text) == value@,
            final(self).blink_resets == old(self).blink_resets,
    {
        let mut range = self.range();
        self.model.set_value(value.as_str());
        let count = self.model.grapheme_count();
        if range.active > count {
            range.active = count;
        }
        if range.anchor > count {
            range.anchor = count;
        }
        self.set_range(range);
    }

    /// (row, column) of the active end.
    pub fn cursor_rowcol(&self) -> (r: (usize, usize))
        ensures
            r.0 == rowcol_of(self@.text, self@.range.active as int).0,
            r.1 == rowcol_of(self@.text, self@.range.active as int).1,
    {
        self.model.flat_to_rowcol(self.range().active)
    }

    pub fn grapheme_count(&self) -> (n: usize)
        ensures
            n == self@.text.len(),
    {
        self.model.grapheme_count()
    }

    /// Whether the caret shows, `elapsed_ms` after the blink was last reset:
    /// only in a focused input of a focused window, for the first 530 ms of
    /// every 1060.
    pub fn blink_visible(&self, window_focused: bool, elapsed_ms: u64) -> (b: bool)
        ensures
            b == (self.focused && window_focused && elapsed_ms % 1060 < 530),
    {
        if !self.focused || !window_focused {
            return false;
        }
        elapsed_ms % 1060 < 530
    }

    /// The text to show: one bullet per cluster when secure.
    pub fn display_text(&self) -> (s: String)
        ensures
            s@ == (if self@.secure {
                Seq::new(self@.text.len(), |i: int| '\u{2022}')
            } else {
                flatten(self@.text)
            }),
    {
        if self.secure {
            let n = self.model.grapheme_count();
            let mut out = String::new();
            let mut i: usize = 0;
            while i < n
                invariant
                    i <= n,
                    out@ == Seq::new(i as nat, |j: int| '\u{2022}'),
                decreases n - i,
            {
                push_char(&mut out, '\u{2022}');
                i = i + 1;
                assert(out@ =~= Seq::new(i as nat, |j: int| '\u{2022}'));
            }
            out
        } else {
            self.model.text()
        }
    }
    fn edit_to_key(r: Option<EditEvent>, otherwise: KeyResult) -> (k: KeyResult)
        ensures
            key_outcome(k) == (match edit_report(r) {
                Some((kind, ins)) => KeyOutcome::Edit(kind, ins),
                None => key_outcome(otherwise),
            }),
    {
        match r {
            Some(edit) => KeyResult::Edit(edit),
            None => otherwise,
        }
    }

    // ── Key handling ────────────────────────────────────────────────────

    fn handle_character(&mut self, ch: &String, ctrl: bool) -> (r: KeyResult)
        ensures
            (final(self)@, key_outcome(r)) == (if ctrl {
                if ch@ == seq!['a'] || ch@ == seq!['A'] {
                    (op_select_all(old(self)@), KeyOutcome::Handled)
                } else {
                    (old(self)@, KeyOutcome::Ignored)
                }
            } else {
                edit_outcome(op_insert(old(self)@, ch@), KeyOutcome::Handled)
            }),
            !old(self)@.multiline && no_line_breaks(old(self)@.text) ==> no_line_breaks(
                final(self)@.text,
            ),
            final(self).blink_resets == (if (if ctrl { ch@ == seq!['a'] || ch@ == seq!['A'] } else { op_insert(old(self)@, ch@).1 is Some }) { restarted(old(self).blink_resets) } else { old(self).blink_resets }),
    {
        if ctrl {
            if is_letter_a(ch) {
                self.select_all();
                KeyResult::Handled
            } else {
                KeyResult::Ignored
            }
        } else {
            let r = self.insert_text(ch.as_str());
            Self::edit_to_key(r, KeyResult::Handled)
        }
    }

    /// Applies a key press (see `op_key`). `modifiers` holds Control in bit 0
    /// and Shift in bit 2.
    pub fn handle_key(&mut self, key: &Key, modifiers: u32) -> (r: KeyResult)
        ensures
            (final(self)@, key_outcome(r)) == op_key(old(self)@, *key, modifiers),
            !old(self)@.multiline && no_line_breaks(old(self)@.text) ==> no_line_breaks(
                final(self)@.text,
            ),
            final(self).blink_resets == (if key_restarts_blink(old(self)@, *key, modifiers) { restarted(old(self).blink_resets) } else { old(self).blink_resets }),
    {
        if self.disabled {
            return KeyResult::Ignored;
        }
        if !self.multiline {
            if let Key::Named(NamedKey::Enter) = key {
                return KeyResult::Ignored;
            }
        }
        self.sticky_col = None;
        let shift = modifiers & 4 != 0;
        let ctrl = modifiers & 1 != 0;
        proof {
            reveal_strlit(" ");
            reveal_strlit("\n");
            reveal_strlit("    ");
            assert(" "@ =~= seq![' ']);
            assert("\n"@ =~= seq!['\n']);
            assert("    "@ =~= seq![' ', ' ', ' ', ' ']);
        }
        match key {
            Key::Character(ch) => self.handle_character(ch, ctrl),
            Key::Named(named) => match named {
                NamedKey::Backspace => {
                    let ghost before = self@;
                    let r = if ctrl {
                        self.delete_word_backward()
                    } else {
                        self.delete_backward()
                    };
                    proof {
                        if no_line_breaks(before.text) {
                            law_deletion_keeps_single_line(before, EditKind::DeleteWordBackward);
                            law_deletion_keeps_single_line(before, EditKind::DeleteBackward);
                        }
                    }
                    Self::edit_to_key(r, KeyResult::Handled)
                },
                NamedKey::Delete => {
                    let ghost before = self@;
                    let r = if ctrl {
                        self.delete_word_forward()
                    } else {
                        self.delete_forward()
                    };
                    proof {
                        if no_line_breaks(before.text) {
                            law_deletion_keeps_single_line(before, EditKind::DeleteWordForward);
                            law_deletion_keeps_single_line(before, EditKind::DeleteForward);
                        }
                    }
                    Self::edit_to_key(r, KeyResult::Handled)
                },
                NamedKey::ArrowLeft => {
                    if ctrl {
                        self.move_word_left(shift);
                    } else {
                        self.move_left(shift);
                    }
                    KeyResult::Handled
                },
                NamedKey::ArrowRight => {
                    if ctrl {
                        self.move_word_right(shift);
                    } else {
                        self.move_right(shift);
                    }
                    KeyResult::Handled
                },
                NamedKey::Home => {
                    if ctrl {
                        self.move_absolute_home(shift);
                    } else {
                        self.move_home(shift);
                    }
                    KeyResult::Handled
                },
                NamedKey::End => {
                    if ctrl {
                        self.move_absolute_end(shift);
                    } else {
                        self.move_end(shift);
                    }
                    KeyResult::Handled
                },
                NamedKey::Space => {
                    let r = self.insert_text(" ");
                    Self::edit_to_key(r, KeyResult::Handled)
                },
                NamedKey::Escape => KeyResult::Blur,
                NamedKey::Enter => {
                    let r = self.insert_text("\n");
                    Self::edit_to_key(r, KeyResult::Ignored)
                },
                NamedKey::Tab => {
                    let r = self.insert_text("    ");
                    Self::edit_to_key(r, KeyResult::Ignored)
                },
                _ => KeyResult::Ignored,
            },
            Key::Unidentified => KeyResult::Ignored,
        }
    }
}

// ── Laws ────────────────────────────────────────────────────────────────────

/// Moving the cursor never changes the text, the flags or the placeholder.
pub proof fn law_movement_keeps_text(v: InputView, extend: bool, sticky: Option<usize>, pos: int)
    ensures
        op_move_left(v, extend).text == v.text,
        op_move_right(v, extend).text == v.text,
        op_move_word_left(v, extend).text == v.text,
        op_move_word_right(v, extend).text == v.text,
        op_move_home(v, extend).text == v.text,
        op_move_end(v, extend).text == v.text,
        op_move_absolute_home(v, extend).text == v.text,
        op_move_absolute_end(v, extend).text == v.text,
        op_move_up(v, extend, sticky).0.text == v.text,
        op_move_down(v, extend, sticky).0.text == v.text,
        op_move_to(v, pos, extend).text == v.text,
        op_select_all(v).text == v.text,
        op_move_left(v, extend) == with_range(v, op_move_left(v, extend).range),
        op_move_up(v, extend, sticky).0 == with_range(v, op_move_up(v, extend, sticky).0.range),
        op_move_down(v, extend, sticky).0 == with_range(v, op_move_down(v, extend, sticky).0.range),
{
}

/// Whether both ends of a selection lie in a buffer of `len` clusters.
pub open spec fn range_within(r: SelectionRange, len: nat) -> bool {
    r.anchor <= len && r.active <= len
}

/// A selection inside the buffer stays inside it after any cursor movement.
pub proof fn law_movement_stays_in_buffer(
    v: InputView,
    extend: bool,
    sticky: Option<usize>,
    pos: int,
)
    requires
        range_within(v.range, v.text.len()),
        v.text.len() <= usize::MAX,
        0 <= pos,
    ensures
        range_within(op_move_left(v, extend).range, v.text.len()),
        range_within(op_move_right(v, extend).range, v.text.len()),
        range_within(op_move_word_left(v, extend).range, v.text.len()),
        range_within(op_move_word_right(v, extend).range, v.text.len()),
        range_within(op_move_home(v, extend).range, v.text.len()),
        range_within(op_move_end(v, extend).range, v.text.len()),
        range_within(op_move_absolute_home(v, extend).range, v.text.len()),
        range_within(op_move_absolute_end(v, extend).range, v.text.len()),
        range_within(op_move_up(v, extend, sticky).0.range, v.text.len()),
        range_within(op_move_down(v, extend, sticky).0.range, v.text.len()),
        range_within(op_move_to(v, pos, extend).range, v.text.len()),
        range_within(op_select_all(v).range, v.text.len()),
{
    let gs = v.text;
    let a = v.range.active as int;
    crate::text_model::law_word_bounds_bracket(gs, a);
    crate::text_model::lemma_line_begin_bounds(gs, clamp_pos(gs, a));
    let row = rowcol_of(gs, a).0;
    crate::text_model::lemma_line_start_bounds(gs, row);
    if row > 0 {
        crate::text_model::lemma_line_start_bounds(gs, (row - 1) as nat);
    }
    crate::text_model::lemma_line_start_bounds(gs, row + 1);
}

/// Selecting all and reading the selection gives the whole text.
pub proof fn law_select_all_selects_text(v: InputView)
    requires
        v.text.len() <= usize::MAX,
    ensures
        ({
            let w = op_select_all(v);
            crate::text_model::text_between(
                w.text,
                range_start(w.range) as int,
                range_end(w.range) as int,
            ) == flatten(v.text)
        }),
{
    let gs = v.text;
    if gs.len() > 0 {
        assert(gs.subrange(0, gs.len() as int) =~= gs);
    } else {
        assert(gs =~= Seq::<Seq<char>>::empty());
    }
}

/// Typing at a collapsed cursor and then deleting what was typed (selected
/// by its bounds) gives back the text that was there before.
pub proof fn law_type_then_delete_restores(v: InputView, text: Seq<char>)
    requires
        !v.disabled,
        v.multiline,
        v.range.anchor == v.range.active,
        v.range.active <= v.text.len(),
        grapheme_clusters(text).len() > 0,
        fits(v.text.len(), grapheme_clusters(text).len(), v.limit),
        v.text.len() + grapheme_clusters(text).len() <= usize::MAX,
    ensures
        ({
            let (w, report) = op_insert(v, text);
            let p = v.range.active as int;
            let k = grapheme_clusters(text).len();
            &&& report == Some((EditKind::Insert, Some(text)))
            &&& w.range == cursor_at(p + k)
            &&& op_delete(
                with_range(w, SelectionRange { anchor: p as usize, active: (p + k) as usize }),
                EditKind::DeleteBackward,
            ).0.text == v.text
        }),
{
    let p = v.range.active as int;
    let ins = grapheme_clusters(text);
    let k = ins.len();
    let t = v.text.take(p) + ins + v.text.skip(p);
    assert(t.take(p) + t.skip(p + k) =~= v.text);
}

/// Removing clusters never lengthens a buffer.
proof fn lemma_removal_shortens(gs: Seq<Seq<char>>, a: int, b: int)
    requires
        0 <= a,
    ensures
        remove_between(gs, a, b).len() <= gs.len(),
{
}

/// Typing keeps the limit, and keeps within it a buffer that was within it.
proof fn lemma_insert_respects_limit(v: InputView, text: Seq<char>)
    requires
        fits(v.text.len(), 0, v.limit),
    ensures
        op_insert(v, text).0.limit == v.limit,
        fits(op_insert(v, text).0.text.len(), 0, v.limit),
{
    let v0 = without_sticky(v);
    if v0.range.anchor != v0.range.active {
        lemma_removal_shortens(v0.text, range_start(v0.range) as int, range_end(v0.range) as int);
    }
    let v1 = delete_selection_of(v0);
    let p = clamp_pos(v1.text, v1.range.active as int);
    let ins = grapheme_clusters(accepted_text(v0.multiline, text));
    assert((v1.text.take(p) + ins + v1.text.skip(p)).len() == v1.text.len() + ins.len());
}

/// Deleting keeps the limit and never lengthens the buffer.
proof fn lemma_delete_respects_limit(v: InputView, kind: EditKind)
    ensures
        op_delete(v, kind).0.limit == v.limit,
        op_delete(v, kind).0.text.len() <= v.text.len(),
{
    let v0 = without_sticky(v);
    let a = v0.range.active as int;
    let p = clamp_pos(v0.text, a);
    crate::text_model::law_word_bounds_bracket(v0.text, a);
    if v0.range.anchor != v0.range.active {
        lemma_removal_shortens(v0.text, range_start(v0.range) as int, range_end(v0.range) as int);
    }
    if p > 0 {
        lemma_removal_shortens(v0.text, p - 1, p);
    }
    lemma_removal_shortens(v0.text, p, p + 1);
    lemma_removal_shortens(v0.text, word_start(v0.text, a), p);
    lemma_removal_shortens(v0.text, p, word_end(v0.text, a));
}

/// No key takes a buffer within its limit past it, and no key changes the
/// limit.
#[verifier::rlimit(60)]
#[verifier::spinoff_prover]
pub proof fn law_key_respects_limit(v: InputView, key: Key, modifiers: u32)
    requires
        fits(v.text.len(), 0, v.limit),
    ensures
        op_key(v, key, modifiers).0.limit == v.limit,
        fits(op_key(v, key, modifiers).0.text.len(), 0, v.limit),
{
    let v0 = without_sticky(v);
    if v.disabled || (!v.multiline && key == Key::Named(NamedKey::Enter)) {
    } else {
        match key {
            Key::Character(ch) => lemma_insert_respects_limit(v0, ch@),
            Key::Named(named) => match named {
                NamedKey::Backspace => {
                    lemma_delete_respects_limit(v0, EditKind::DeleteBackward);
                    lemma_delete_respects_limit(v0, EditKind::DeleteWordBackward);
                },
                NamedKey::Delete => {
                    lemma_delete_respects_limit(v0, EditKind::DeleteForward);
                    lemma_delete_respects_limit(v0, EditKind::DeleteWordForward);
                },
                NamedKey::Space => lemma_insert_respects_limit(v0, seq![' ']),
                NamedKey::Enter => lemma_insert_respects_limit(v0, seq!['\n']),
                NamedKey::Tab => lemma_insert_respects_limit(v0, seq![' ', ' ', ' ', ' ']),
                _ => {},
            },
            Key::Unidentified => {},
        }
    }
}

/// Deleting never brings a line break into a buffer that had none.
pub proof fn law_deletion_keeps_single_line(v: InputView, kind: EditKind)
    requires
        no_line_breaks(v.text),
    ensures
        no_line_breaks(op_delete(v, kind).0.text),
{
    let v0 = without_sticky(v);
    let a = v0.range.active as int;
    let p = clamp_pos(v0.text, a);
    crate::text_model::law_word_bounds_bracket(v0.text, a);
    if v0.range.anchor != v0.range.active {
        lemma_removal_keeps_no_breaks(v0.text, range_start(v0.range) as int, range_end(v0.range) as int);
    }
    if p > 0 {
        lemma_removal_keeps_no_breaks(v0.text, p - 1, p);
    }
    lemma_removal_keeps_no_breaks(v0.text, p, p + 1);
    lemma_removal_keeps_no_breaks(v0.text, word_start(v0.text, a), p);
    lemma_removal_keeps_no_breaks(v0.text, p, word_end(v0.text, a));
}

/// The arrow keys move the caret one cluster and, with Shift held (modifier
/// bit 4) and Control not (bit 1), extend the selection instead of
/// collapsing it: the anchor stays where it was and only the active end
/// moves, one cluster right (or left) unless it is at the end (or start)
/// of the text. Without Shift, a collapsed caret moves with both ends. The
/// text never changes.
pub proof fn law_arrow_keys_move_and_extend(v: InputView, modifiers: u32)
    requires
        !v.disabled,
        modifiers & 1 == 0,
        v.range.active <= v.text.len(),
        v.text.len() <= usize::MAX,
    ensures
        op_key(v, Key::Named(NamedKey::ArrowRight), modifiers).0.text == v.text,
        op_key(v, Key::Named(NamedKey::ArrowLeft), modifiers).0.text == v.text,
        modifiers & 4 != 0 ==> ({
            let r = op_key(v, Key::Named(NamedKey::ArrowRight), modifiers).0.range;
            &&& r.anchor == v.range.anchor
            &&& r.active == (if v.range.active < v.text.len() { v.range.active + 1 } else { v.range.active as int })
        }),
        modifiers & 4 != 0 ==> ({
            let r = op_key(v, Key::Named(NamedKey::ArrowLeft), modifiers).0.range;
            &&& r.anchor == v.range.anchor
            &&& r.active == (if v.range.active > 0 { v.range.active - 1 } else { v.range.active as int })
        }),
        modifiers & 4 == 0 && v.range.anchor == v.range.active && v.range.active < v.text.len() ==> ({
            let r = op_key(v, Key::Named(NamedKey::ArrowRight), modifiers).0.range;
            &&& r.anchor == v.range.active + 1
            &&& r.active == v.range.active + 1
        }),
        modifiers & 4 == 0 && v.range.anchor == v.range.active && v.range.active > 0 ==> ({
            let r = op_key(v, Key::Named(NamedKey::ArrowLeft), modifiers).0.range;
            &&& r.anchor == v.range.active - 1
            &&& r.active == v.range.active - 1
        }),
{
}

} // verus!
