use vstd::prelude::*;

use crate::input::{ctrl_held, is_letter_a, shift_held, InputState, Key, NamedKey};
use crate::selection::{range_end, range_start, DomSelection, NodeId, SelectionRange};
use crate::text_model::{lemma_flatten_append, text_between, word_end, word_start, TextModel};
use crate::textkit::{alphanumeric, char_is_alphanumeric, flatten, grapheme_clusters, split_graphemes, views};

verus! {

/// One text node's share of a selectable run.
pub struct TextRunEntry {
    pub node_id: NodeId,
    /// Index of the node's first cluster in the run.
    pub flat_start: usize,
    pub grapheme_count: usize,
}

/// The text of a selectable subtree, node after node, with the place of each
/// node's clusters in it.
pub struct TextSelectRun {
    pub root_id: NodeId,
    pub entries: Vec<TextRunEntry>,
    pub flat_text: String,
    pub total_graphemes: usize,
}

impl TextSelectRun {
    /// The entries follow one another without gap or overlap from 0, and the
    /// last ends at the total.
    pub open spec fn entries_contiguous(&self) -> bool {
        let e = self.entries@;
        &&& e.len() == 0 ==> self.total_graphemes == 0
        &&& e.len() > 0 ==> e[0].flat_start == 0
        &&& e.len() > 0 ==> e.last().flat_start + e.last().grapheme_count == self.total_graphemes
        &&& forall|i: int|
            0 <= i < e.len() - 1 ==> #[trigger] e[i].flat_start + e[i].grapheme_count == e[i
                + 1].flat_start
    }

    /// An empty run for the subtree at `root_id`.
    pub fn new(root_id: NodeId) -> (r: Self)
        ensures
            r.root_id == root_id,
            r.entries@.len() == 0,
            r.flat_text@ == Seq::<char>::empty(),
            r.total_graphemes == 0,
            r.entries_contiguous(),
    {
        TextSelectRun {
            root_id,
            entries: Vec::new(),
            flat_text: String::new(),
            total_graphemes: 0,
        }
    }

    /// Appends a text node: its entry starts where the run ends, and its
    /// content is appended to the run's text.
    pub fn push_text(&mut self, node_id: NodeId, content: &str)
        requires
            old(self).entries_contiguous(),
            old(self).total_graphemes + content@.len() <= usize::MAX,
        ensures
            final(self).entries_contiguous(),
            final(self).root_id == old(self).root_id,
            final(self).entries@ == old(self).entries@.push(
                TextRunEntry {
                    node_id,
                    flat_start: old(self).total_graphemes,
                    grapheme_count: grapheme_clusters(content@).len() as usize,
                },
            ),
            final(self).flat_text@ == old(self).flat_text@ + content@,
            final(self).total_graphemes == old(self).total_graphemes + grapheme_clusters(
                content@,
            ).len(),
    {
        let gs = split_graphemes(content);
        proof {
            lemma_cluster_count_bounded(views(gs@));
        }
        let gc = gs.len();
        let entry = TextRunEntry { node_id, flat_start: self.total_graphemes, grapheme_count: gc };
        self.entries.push(entry);
        self.flat_text.append(content);
        self.total_graphemes = self.total_graphemes + gc;
    }
}

/// There are no more clusters than characters when no cluster is empty.
pub proof fn lemma_cluster_count_bounded(gs: Seq<Seq<char>>)
    requires
        forall|i: int| 0 <= i < gs.len() ==> #[trigger] gs[i].len() > 0,
    ensures
        gs.len() <= flatten(gs).len(),
    decreases gs.len(),
{
    if gs.len() > 0 {
        lemma_cluster_count_bounded(gs.drop_last());
    }
}

// ── Finding a run ───────────────────────────────────────────────────────────

/// `i` is the first run of the subtree at `root`.
pub open spec fn is_run_position(runs: Seq<TextSelectRun>, root: NodeId, i: int) -> bool {
    &&& 0 <= i < runs.len()
    &&& runs[i].root_id == root
    &&& forall|j: int| 0 <= j < i ==> #[trigger] runs[j].root_id != root
}

/// The first run of the subtree at `root`, if any.
pub open spec fn run_of(runs: Seq<TextSelectRun>, root: NodeId) -> Option<TextSelectRun> {
    if exists|i: int| #[trigger] is_run_position(runs, root, i) {
        Some(runs[choose|i: int| #[trigger] is_run_position(runs, root, i)])
    } else {
        None
    }
}

proof fn lemma_run_of(runs: Seq<TextSelectRun>, root: NodeId, i: int)
    requires
        is_run_position(runs, root, i),
    ensures
        run_of(runs, root) == Some(runs[i]),
{
    let k = choose|k: int| #[trigger] is_run_position(runs, root, k);
    assert(is_run_position(runs, root, k));
    if k < i {
        assert(runs[k].root_id != root);
    }
    if k > i {
        assert(runs[i].root_id != root);
    }
}

/// Index of the first run of the subtree at `root_id`.
pub fn find_run(runs: &[TextSelectRun], root_id: NodeId) -> (r: Option<usize>)
    ensures
        match r {
            Some(i) => is_run_position(runs@, root_id, i as int) && run_of(runs@, root_id) == Some(
                runs@[i as int],
            ),
            None => run_of(runs@, root_id) is None,
        },
{
    let n = runs.len();
    for i in 0..n
        invariant
            n == runs@.len(),
            forall|j: int| 0 <= j < i ==> #[trigger] runs@[j].root_id != root_id,
    {
        if runs[i].root_id == root_id {
            proof {
                lemma_run_of(runs@, root_id, i as int);
            }
            return Some(i);
        }
    }
    proof {
        if exists|i: int| #[trigger] is_run_position(runs@, root_id, i) {
            let k = choose|k: int| #[trigger] is_run_position(runs@, root_id, k);
            assert(runs@[k].root_id != root_id);
        }
    }
    None
}

/// Whether a run has an entry for the node.
pub open spec fn run_has_node(run: TextSelectRun, node_id: NodeId) -> bool {
    exists|j: int| 0 <= j < run.entries@.len() && #[trigger] run.entries@[j].node_id == node_id
}

/// Where the entry of a text node is: the first run that has one, and the
/// first such entry in it.
pub fn find_run_entry_for_node(runs: &[TextSelectRun], node_id: NodeId) -> (r: Option<(usize, usize)>)
    ensures
        match r {
            Some((i, j)) => {
                &&& 0 <= i < runs@.len()
                &&& 0 <= j < runs@[i as int].entries@.len()
                &&& runs@[i as int].entries@[j as int].node_id == node_id
                &&& forall|a: int| 0 <= a < i ==> !run_has_node(#[trigger] runs@[a], node_id)
                &&& forall|b: int|
                    0 <= b < j ==> #[trigger] runs@[i as int].entries@[b].node_id != node_id
            },
            None => forall|a: int| 0 <= a < runs@.len() ==> !run_has_node(#[trigger] runs@[a], node_id),
        },
        match r {
            Some((i, j)) => entry_of(runs@, node_id) == Some(
                (runs@[i as int].root_id, runs@[i as int].entries@[j as int]),
            ),
            None => entry_of(runs@, node_id) is None,
        },
{
    let n = runs.len();
    for i in 0..n
        invariant
            n == runs@.len(),
            forall|a: int| 0 <= a < i ==> !run_has_node(#[trigger] runs@[a], node_id),
    {
        let m = runs[i].entries.len();
        for j in 0..m
            invariant
                n == runs@.len(),
                i < n,
                m == runs@[i as int].entries@.len(),
                forall|a: int| 0 <= a < i ==> !run_has_node(#[trigger] runs@[a], node_id),
                forall|b: int| 0 <= b < j ==> #[trigger] runs@[i as int].entries@[b].node_id != node_id,
        {
            if runs[i].entries[j].node_id == node_id {
                proof {
                    lemma_entry_of(runs@, node_id, i as int, j as int);
                }
                return Some((i, j));
            }
        }
    }
    proof {
        if exists|i: int, j: int| is_entry_position(runs@, node_id, i, j) {
            let (i, j) = choose|i: int, j: int| is_entry_position(runs@, node_id, i, j);
            assert(run_has_node(runs@[i], node_id));
        }
    }
    None
}

/// `(i, j)` is where the entry of a text node is: the first run that has
/// one, and the first such entry in it.
pub open spec fn is_entry_position(runs: Seq<TextSelectRun>, node_id: NodeId, i: int, j: int) -> bool {
    &&& 0 <= i < runs.len()
    &&& 0 <= j < runs[i].entries@.len()
    &&& runs[i].entries@[j].node_id == node_id
    &&& forall|a: int| 0 <= a < i ==> !run_has_node(#[trigger] runs[a], node_id)
    &&& forall|b: int| 0 <= b < j ==> #[trigger] runs[i].entries@[b].node_id != node_id
}

/// The root of the run holding a text node's entry, and the entry (see
/// `is_entry_position`); `None` for a node no run has.
pub open spec fn entry_of(runs: Seq<TextSelectRun>, node_id: NodeId) -> Option<(NodeId, TextRunEntry)> {
    if exists|i: int, j: int| is_entry_position(runs, node_id, i, j) {
        let (i, j) = choose|i: int, j: int| is_entry_position(runs, node_id, i, j);
        Some((runs[i].root_id, runs[i].entries@[j]))
    } else {
        None
    }
}

/// The entry position of a node is unique.
pub proof fn lemma_entry_of(runs: Seq<TextSelectRun>, node_id: NodeId, i: int, j: int)
    requires
        is_entry_position(runs, node_id, i, j),
    ensures
        entry_of(runs, node_id) == Some((runs[i].root_id, runs[i].entries@[j])),
{
    let (k, l) = choose|k: int, l: int| is_entry_position(runs, node_id, k, l);
    assert(is_entry_position(runs, node_id, k, l));
    if k < i {
        assert(run_has_node(runs[k], node_id));
    }
    if i < k {
        assert(run_has_node(runs[i], node_id));
    }
    if k == i && l < j {
        assert(runs[i].entries@[l].node_id != node_id);
    }
    if k == i && j < l {
        assert(runs[i].entries@[j].node_id != node_id);
    }
}

/// Whether a node is a text node inside a selectable subtree.
pub fn is_text_selectable(runs: &[TextSelectRun], node_id: NodeId) -> (b: bool)
    ensures
        b == exists|a: int| 0 <= a < runs@.len() && run_has_node(#[trigger] runs@[a], node_id),
{
    match find_run_entry_for_node(runs, node_id) {
        Some((i, j)) => {
            assert(run_has_node(runs@[i as int], node_id));
            true
        },
        None => false,
    }
}

// ── Removing nodes ──────────────────────────────────────────────────────────

/// Whether a run refers to a node, as its root or by an entry.
pub open spec fn run_mentions(run: TextSelectRun, id: NodeId) -> bool {
    run.root_id == id || run_has_node(run, id)
}

fn run_mentions_exec(run: &TextSelectRun, id: NodeId) -> (b: bool)
    ensures
        b == run_mentions(*run, id),
{
    if run.root_id == id {
        return true;
    }
    let m = run.entries.len();
    for j in 0..m
        invariant
            m == run.entries@.len(),
            forall|b: int| 0 <= b < j ==> #[trigger] run.entries@[b].node_id != id,
    {
        if run.entries[j].node_id == id {
            return true;
        }
    }
    false
}

/// Drops the runs that refer to a removed node, keeping the others in order,
/// so that no run refers to a node that is gone.
pub fn forget_node_in_runs(runs: &mut Vec<TextSelectRun>, id: NodeId)
    ensures
        final(runs)@ == old(runs)@.filter(|r: TextSelectRun| !run_mentions(r, id)),
        forall|i: int| 0 <= i < final(runs)@.len() ==> !run_mentions(#[trigger] final(runs)@[i], id),
{
    let mut src: Vec<TextSelectRun> = Vec::new();
    std::mem::swap(&mut src, runs);
    let ghost orig = src@;
    let ghost f = |r: TextSelectRun| !run_mentions(r, id);
    let mut kept: Vec<TextSelectRun> = Vec::new();
    let ghost mut k: int = 0;
    assert(orig.take(0) =~= Seq::<TextSelectRun>::empty());
    proof {
        reveal_with_fuel(Seq::filter, 1);
    }
    while src.len() > 0
        invariant
            0 <= k <= orig.len(),
            src@ == orig.skip(k),
            kept@ == orig.take(k).filter(f),
            f == (|r: TextSelectRun| !run_mentions(r, id)),
        decreases src@.len(),
    {
        let r = src.remove(0);
        proof {
            assert(r == orig[k]);
            assert(orig.take(k + 1).drop_last() =~= orig.take(k));
            assert(orig.take(k + 1).last() == orig[k]);
            reveal_with_fuel(Seq::filter, 1);
            assert(orig.skip(k).remove(0) =~= orig.skip(k + 1));
        }
        if !run_mentions_exec(&r, id) {
            kept.push(r);
        }
        proof {
            k = k + 1;
        }
    }
    proof {
        assert(orig.take(k) =~= orig);
        orig.filter_lemma(f);
    }
    *runs = kept;
}

// ── Word boundaries by characters ───────────────────────────────────────────

/// A character that belongs to a word.
pub open spec fn is_word_char(c: char) -> bool {
    alphanumeric(c) || c == '_'
}

/// The start of the run of word characters that ends at `i`.
pub open spec fn word_run_start(chars: Seq<char>, i: int) -> int
    decreases i,
{
    if i > 0 && i <= chars.len() && is_word_char(chars[i - 1]) {
        word_run_start(chars, i - 1)
    } else {
        i
    }
}

/// The end of the run of word characters that starts at `i`.
pub open spec fn word_run_end(chars: Seq<char>, i: int) -> int
    decreases chars.len() - i,
{
    if 0 <= i < chars.len() && is_word_char(chars[i]) {
        word_run_end(chars, i + 1)
    } else {
        i
    }
}

/// The last cluster that begins at character `target`.
pub open spec fn starts_at(gs: Seq<Seq<char>>, target: int) -> Option<int>
    decreases gs.len(),
{
    if gs.len() == 0 {
        None
    } else if flatten(gs.drop_last()).len() == target {
        Some(gs.len() - 1)
    } else {
        starts_at(gs.drop_last(), target)
    }
}

/// The last cluster count whose clusters end at character `target`.
pub open spec fn ends_at(gs: Seq<Seq<char>>, target: int) -> Option<int>
    decreases gs.len(),
{
    if gs.len() == 0 {
        None
    } else if flatten(gs).len() == target {
        Some(gs.len() as int)
    } else {
        ends_at(gs.drop_last(), target)
    }
}

/// The word around cluster `flat_idx`, found by characters: the run of word
/// characters around the cluster's first character, or that one character,
/// given back in clusters. A character position that falls inside a cluster
/// gives 0 for the start and the cluster count for the end.
pub open spec fn word_bounds(gs: Seq<Seq<char>>, flat_idx: int) -> (int, int) {
    let chars = flatten(gs);
    let k = if flat_idx < gs.len() { flat_idx } else { gs.len() as int };
    let ci = flatten(gs.take(k)).len() as int;
    let on_word = ci < chars.len() && is_word_char(chars[ci]);
    let sc = if on_word { word_run_start(chars, ci) } else { ci };
    let ec = if on_word {
        word_run_end(chars, ci)
    } else if ci < chars.len() {
        ci + 1
    } else {
        ci
    };
    (
        match starts_at(gs, sc) {
            Some(j) => j,
            None => 0,
        },
        match ends_at(gs, ec) {
            Some(j) => j,
            None => gs.len() as int,
        },
    )
}

proof fn lemma_prefix_len(gs: Seq<Seq<char>>, i: int)
    requires
        0 <= i <= gs.len(),
    ensures
        flatten(gs.take(i)).len() <= flatten(gs).len(),
        i < gs.len() ==> flatten(gs.take(i + 1)) == flatten(gs.take(i)) + gs[i],
{
    lemma_flatten_append(gs.take(i), gs.skip(i));
    assert(gs.take(i) + gs.skip(i) =~= gs);
    if i < gs.len() {
        assert(gs.take(i + 1).drop_last() =~= gs.take(i));
    }
}

fn is_word_at(text: &str, k: usize) -> (b: bool)
    requires
        k < text@.len(),
    ensures
        b == is_word_char(text@[k as int]),
{
    let c = text.get_char(k);
    char_is_alphanumeric(c) || c == '_'
}

fn word_bounds_in_text(text: &str, flat_idx: usize) -> (r: (usize, usize))
    ensures
        r.0 == word_bounds(grapheme_clusters(text@), flat_idx as int).0,
        r.1 == word_bounds(grapheme_clusters(text@), flat_idx as int).1,
{
    let gs = split_graphemes(text);
    let ghost vs = views(gs@);
    let g = gs.len();
    let n = text.unicode_len();
    let mut char_idx: usize = 0;
    let mut i: usize = 0;
    while i < g && i < flat_idx
        invariant
            g == gs@.len(),
            vs == views(gs@),
            flatten(vs) == text@,
            n == text@.len(),
            i <= g,
            i <= flat_idx,
            char_idx == flatten(vs.take(i as int)).len(),
        decreases g - i,
    {
        proof {
            lemma_prefix_len(vs, i as int);
            lemma_prefix_len(vs, i + 1);
            assert(vs[i as int] == gs@[i as int]@);
        }
        char_idx = char_idx + gs[i].unicode_len();
        i = i + 1;
    }
    proof {
        lemma_prefix_len(vs, i as int);
        assert(i as int == (if flat_idx < g { flat_idx as int } else { g as int }));
    }
    let on_word = char_idx < n && is_word_at(text, char_idx);
    let mut start_char = char_idx;
    if on_word {
        while start_char > 0 && is_word_at(text, start_char - 1)
            invariant
                start_char <= char_idx <= n,
                n == text@.len(),
                word_run_start(text@, start_char as int) == word_run_start(text@, char_idx as int),
            decreases start_char,
        {
            start_char = start_char - 1;
        }
    }
    let mut end_char = char_idx;
    if on_word {
        while end_char < n && is_word_at(text, end_char)
            invariant
                char_idx <= end_char <= n,
                n == text@.len(),
                word_run_end(text@, end_char as int) == word_run_end(text@, char_idx as int),
            decreases n - end_char,
        {
            end_char = end_char + 1;
        }
    } else if end_char < n {
        end_char = end_char + 1;
    }
    let mut gi: usize = 0;
    let mut ci: usize = 0;
    let mut start_g: usize = 0;
    let mut end_g: usize = g;
    while gi < g
        invariant
            g == gs@.len(),
            vs == views(gs@),
            flatten(vs) == text@,
            n == text@.len(),
            gi <= g,
            ci == flatten(vs.take(gi as int)).len(),
            start_g == (match starts_at(vs.take(gi as int), start_char as int) {
                Some(j) => j,
                None => 0,
            }),
            end_g == (match ends_at(vs.take(gi as int), end_char as int) {
                Some(j) => j,
                None => g as int,
            }),
        decreases g - gi,
    {
        proof {
            lemma_prefix_len(vs, gi as int);
            lemma_prefix_len(vs, gi + 1);
            assert(vs.take(gi + 1).drop_last() =~= vs.take(gi as int));
            assert(vs[gi as int] == gs@[gi as int]@);
        }
        if ci == start_char {
            start_g = gi;
        }
        ci = ci + gs[gi].unicode_len();
        gi = gi + 1;
        if ci == end_char {
            end_g = gi;
        }
    }
    proof {
        assert(vs.take(g as int) =~= vs);
        assert(vs == grapheme_clusters(text@));
        if on_word {
            assert(word_run_start(text@, start_char as int) == start_char);
            assert(word_run_end(text@, end_char as int) == end_char);
        }
    }
    (start_g, end_g)
}

/// The word around cluster `flat_idx` of the run of the subtree at
/// `root_id` (see `word_bounds`); without such a run, the empty range at
/// `flat_idx`.
pub fn word_boundaries_in_run(runs: &[TextSelectRun], root_id: NodeId, flat_idx: usize) -> (r: (
    usize,
    usize,
))
    ensures
        match run_of(runs@, root_id) {
            None => r == (flat_idx, flat_idx),
            Some(run) => {
                &&& r.0 == word_bounds(grapheme_clusters(run.flat_text@), flat_idx as int).0
                &&& r.1 == word_bounds(grapheme_clusters(run.flat_text@), flat_idx as int).1
            },
        },
{
    match find_run(runs, root_id) {
        None => (flat_idx, flat_idx),
        Some(i) => word_bounds_in_text(runs[i].flat_text.as_str(), flat_idx),
    }
}

// ── Word boundaries by clusters ─────────────────────────────────────────────

/// The clusters of a run's text.
pub open spec fn run_clusters(run: TextSelectRun) -> Seq<Seq<char>> {
    grapheme_clusters(run.flat_text@)
}

/// Whether a position lies within the clusters of the run of `root`, when
/// there is such a run.
pub open spec fn within_run(runs: Seq<TextSelectRun>, root: NodeId, flat_idx: int) -> bool {
    match run_of(runs, root) {
        Some(run) => flat_idx <= run_clusters(run).len(),
        None => true,
    }
}

fn run_model(run: &TextSelectRun) -> (m: TextModel)
    ensures
        m@ == run_clusters(*run),
{
    let mut m = TextModel::new();
    m.set_value(run.flat_text.as_str());
    m
}

/// The start of the word before `flat_idx` in the run of `root_id`: skip the
/// non-word clusters to the left, then the word clusters. Without such a run,
/// `flat_idx` itself.
pub fn prev_word_boundary_in_run(runs: &[TextSelectRun], root_id: NodeId, flat_idx: usize) -> (r:
    usize)
    requires
        within_run(runs@, root_id, flat_idx as int),
    ensures
        r == (match run_of(runs@, root_id) {
            Some(run) => word_start(run_clusters(run), flat_idx as int),
            None => flat_idx as int,
        }),
{
    match find_run(runs, root_id) {
        None => flat_idx,
        Some(i) => {
            let m = run_model(&runs[i]);
            m.find_word_start(flat_idx)
        },
    }
}

/// The end of the word at or after `flat_idx` in the run of `root_id`: skip
/// the word clusters to the right, then the non-word clusters. Without such a
/// run, `flat_idx` itself.
pub fn next_word_boundary_in_run(runs: &[TextSelectRun], root_id: NodeId, flat_idx: usize) -> (r:
    usize)
    ensures
        r == (match run_of(runs@, root_id) {
            Some(run) => word_end(run_clusters(run), flat_idx as int),
            None => flat_idx as int,
        }),
{
    match find_run(runs, root_id) {
        None => flat_idx,
        Some(i) => {
            let m = run_model(&runs[i]);
            m.find_word_end(flat_idx)
        },
    }
}

/// The number of clusters the run of `root_id` counts, if there is one.
pub fn run_length(runs: &[TextSelectRun], root_id: NodeId) -> (r: Option<usize>)
    ensures
        r == (match run_of(runs@, root_id) {
            Some(run) => Some(run.total_graphemes),
            None => None::<usize>,
        }),
{
    match find_run(runs, root_id) {
        None => None,
        Some(i) => Some(runs[i].total_graphemes),
    }
}

/// The number of clusters in the target of the current selection: the
/// focused input's text if an input has focus, else the run of the view
/// selection's root; `None` without either.
pub fn selection_run_length(
    focused_input: Option<&InputState>,
    view_root: Option<NodeId>,
    runs: &[TextSelectRun],
) -> (r: Option<usize>)
    ensures
        r == (match focused_input {
            Some(is) => Some(is@.text.len() as usize),
            None => match view_root {
                Some(root) => match run_of(runs@, root) {
                    Some(run) => Some(run.total_graphemes),
                    None => None::<usize>,
                },
                None => None::<usize>,
            },
        }),
{
    match focused_input {
        Some(is) => Some(is.grapheme_count()),
        None => match view_root {
            Some(root) => run_length(runs, root),
            None => None,
        },
    }
}

/// The text a selection covers in its run; empty when it is collapsed or
/// has no run.
pub fn run_selected_text(runs: &[TextSelectRun], sel: &DomSelection) -> (s: String)
    ensures
        s@ == (match run_of(runs@, sel.root) {
            Some(run) => if sel.range.anchor == sel.range.active {
                Seq::<char>::empty()
            } else {
                text_between(
                    run_clusters(run),
                    range_start(sel.range) as int,
                    range_end(sel.range) as int,
                )
            },
            None => Seq::<char>::empty(),
        }),
{
    if sel.is_collapsed() {
        return String::new();
    }
    match find_run(runs, sel.root) {
        None => String::new(),
        Some(i) => {
            let m = run_model(&runs[i]);
            m.text_in_range(sel.start(), sel.end())
        },
    }
}

// ── Keys on a view selection ────────────────────────────────────────────────

/// A selection of the same root and anchor with another active end.
pub open spec fn with_active(s: DomSelection, active: int) -> DomSelection {
    DomSelection { root: s.root, range: SelectionRange { anchor: s.range.anchor, active: active as usize } }
}

/// The selection a key press leaves on a view selection, or `None` when the
/// key is not one the view selection handles: Shift with the arrows, Home
/// and End moves the active end (by words with Control too), and Control-A
/// selects the whole run. A run of length 0 handles nothing. Moving to the
/// word before a position past the run's clusters is not handled.
pub open spec fn view_key_selection(
    runs: Seq<TextSelectRun>,
    sel: Option<DomSelection>,
    pressed: bool,
    key: Key,
    modifiers: u32,
) -> Option<DomSelection> {
    match sel {
        None => None,
        Some(s) => match run_of(runs, s.root) {
            None => None,
            Some(run) => {
                let n = run.total_graphemes as int;
                let gs = run_clusters(run);
                let active = s.range.active as int;
                let shift = shift_held(modifiers);
                let ctrl = ctrl_held(modifiers);
                if !pressed || n == 0 {
                    None
                } else {
                    match key {
                        Key::Named(NamedKey::ArrowLeft) => if shift && ctrl {
                            if active <= gs.len() {
                                Some(with_active(s, word_start(gs, active)))
                            } else {
                                None
                            }
                        } else if shift {
                            Some(with_active(s, if active > 0 { active - 1 } else { 0 }))
                        } else {
                            None
                        },
                        Key::Named(NamedKey::ArrowRight) => if shift && ctrl {
                            Some(with_active(s, word_end(gs, active)))
                        } else if shift {
                            Some(with_active(s, if active + 1 < n { active + 1 } else { n }))
                        } else {
                            None
                        },
                        Key::Named(NamedKey::Home) => if shift {
                            Some(with_active(s, 0))
                        } else {
                            None
                        },
                        Key::Named(NamedKey::End) => if shift {
                            Some(with_active(s, n))
                        } else {
                            None
                        },
                        Key::Character(c) => if ctrl && (c@ == seq!['a'] || c@ == seq!['A']) {
                            Some(DomSelection { root: s.root, range: SelectionRange { anchor: 0, active: n as usize } })
                        } else {
                            None
                        },
                        _ => None,
                    }
                }
            },
        },
    }
}

/// Applies a key press to a view selection (see `view_key_selection`): the
/// new selection when the key is handled, `None` when it is not.
pub fn view_selection_for_key(
    runs: &[TextSelectRun],
    sel: Option<DomSelection>,
    pressed: bool,
    key: &Key,
    modifiers: u32,
) -> (r: Option<DomSelection>)
    ensures
        r == view_key_selection(runs@, sel, pressed, *key, modifiers),
{
    if !pressed {
        return None;
    }
    let s = match sel {
        Some(s) => s,
        None => {
            return None;
        },
    };
    let root = s.root;
    let anchor = s.range.anchor;
    let active = s.range.active;
    let idx = match find_run(runs, root) {
        Some(i) => i,
        None => {
            return None;
        },
    };
    let run_len = runs[idx].total_graphemes;
    if run_len == 0 {
        return None;
    }
    let shift = modifiers & 4 != 0;
    let ctrl = modifiers & 1 != 0;
    match key {
        Key::Named(NamedKey::ArrowLeft) => {
            if shift && ctrl {
                let m = run_model(&runs[idx]);
                if active <= m.grapheme_count() {
                    let new_active = prev_word_boundary_in_run(runs, root, active);
                    Some(DomSelection::new(root, anchor, new_active))
                } else {
                    None
                }
            } else if shift {
                let new_active = if active > 0 { active - 1 } else { 0 };
                Some(DomSelection::new(root, anchor, new_active))
            } else {
                None
            }
        },
        Key::Named(NamedKey::ArrowRight) => {
            if shift && ctrl {
                let new_active = next_word_boundary_in_run(runs, root, active);
                Some(DomSelection::new(root, anchor, new_active))
            } else if shift {
                let new_active = if active < run_len - 1 { active + 1 } else { run_len };
                Some(DomSelection::new(root, anchor, new_active))
            } else {
                None
            }
        },
        Key::Named(NamedKey::Home) => {
            if shift {
                Some(DomSelection::new(root, anchor, 0))
            } else {
                None
            }
        },
        Key::Named(NamedKey::End) => {
            if shift {
                Some(DomSelection::new(root, anchor, run_len))
            } else {
                None
            }
        },
        Key::Character(c) => {
            if ctrl && is_letter_a(c) {
                Some(DomSelection::new(root, 0, run_len))
            } else {
                None
            }
        },
        _ => None,
    }
}

// ── Laws of the word boundaries ─────────────────────────────────────────────

proof fn lemma_starts_at(gs: Seq<Seq<char>>, t: int)
    ensures
        starts_at(gs, t) matches Some(j) ==> 0 <= j < gs.len() && flatten(gs.take(j)).len() == t,
    decreases gs.len(),
{
    if gs.len() > 0 {
        assert(gs.take(gs.len() - 1) =~= gs.drop_last());
        lemma_starts_at(gs.drop_last(), t);
        if let Some(j) = starts_at(gs.drop_last(), t) {
            assert(gs.drop_last().take(j) =~= gs.take(j));
        }
    }
}

proof fn lemma_ends_at(gs: Seq<Seq<char>>, t: int)
    ensures
        ends_at(gs, t) matches Some(k) ==> 1 <= k <= gs.len() && flatten(gs.take(k)).len() == t,
    decreases gs.len(),
{
    if gs.len() > 0 {
        assert(gs.take(gs.len() as int) =~= gs);
        lemma_ends_at(gs.drop_last(), t);
        if let Some(k) = ends_at(gs.drop_last(), t) {
            assert(gs.drop_last().take(k) =~= gs.take(k));
        }
    }
}

proof fn lemma_prefix_strict(gs: Seq<Seq<char>>, a: int, b: int)
    requires
        forall|i: int| 0 <= i < gs.len() ==> #[trigger] gs[i].len() > 0,
        0 <= a < b <= gs.len(),
    ensures
        flatten(gs.take(a)).len() < flatten(gs.take(b)).len(),
    decreases b - a,
{
    lemma_prefix_len(gs, b - 1);
    assert(gs[b - 1].len() > 0);
    if a < b - 1 {
        lemma_prefix_strict(gs, a, b - 1);
    }
}

proof fn lemma_word_run_bounds(chars: Seq<char>, i: int)
    requires
        0 <= i <= chars.len(),
    ensures
        0 <= word_run_start(chars, i) <= i,
        i <= word_run_end(chars, i) <= chars.len(),
        i < chars.len() && is_word_char(chars[i]) ==> word_run_end(chars, i) > i,
    decreases chars.len() - i,
{
    lemma_word_run_start_bounds(chars, i);
    if i < chars.len() && is_word_char(chars[i]) {
        lemma_word_run_bounds(chars, i + 1);
    }
}

proof fn lemma_word_run_start_bounds(chars: Seq<char>, i: int)
    requires
        0 <= i <= chars.len(),
    ensures
        0 <= word_run_start(chars, i) <= i,
    decreases i,
{
    if i > 0 && is_word_char(chars[i - 1]) {
        lemma_word_run_start_bounds(chars, i - 1);
    }
}

/// The word found around a cluster contains it, and lies within the run.
pub proof fn law_word_bounds_contain(gs: Seq<Seq<char>>, idx: int)
    requires
        forall|i: int| 0 <= i < gs.len() ==> #[trigger] gs[i].len() > 0,
        0 <= idx < gs.len(),
    ensures
        0 <= word_bounds(gs, idx).0 <= idx < word_bounds(gs, idx).1 <= gs.len(),
{
    let chars = flatten(gs);
    let ci = flatten(gs.take(idx)).len() as int;
    lemma_prefix_len(gs, idx);
    lemma_word_run_bounds(chars, ci);
    let on_word = ci < chars.len() && is_word_char(chars[ci]);
    let sc = if on_word { word_run_start(chars, ci) } else { ci };
    let ec = if on_word {
        word_run_end(chars, ci)
    } else if ci < chars.len() {
        ci + 1
    } else {
        ci
    };
    assert(ci < chars.len()) by {
        lemma_prefix_strict(gs, idx, gs.len() as int);
        assert(gs.take(gs.len() as int) =~= gs);
    }
    lemma_starts_at(gs, sc);
    lemma_ends_at(gs, ec);
    if let Some(j) = starts_at(gs, sc) {
        if j > idx {
            lemma_prefix_strict(gs, idx, j);
        }
    }
    if let Some(k) = ends_at(gs, ec) {
        if k <= idx {
            if k < idx {
                lemma_prefix_strict(gs, k, idx);
            }
        }
    }
}

/// The word found around any position starts no later than it ends, and ends
/// within the run.
pub proof fn law_word_bounds_ordered(gs: Seq<Seq<char>>, flat_idx: int)
    requires
        forall|i: int| 0 <= i < gs.len() ==> #[trigger] gs[i].len() > 0,
        0 <= flat_idx,
    ensures
        0 <= word_bounds(gs, flat_idx).0 <= word_bounds(gs, flat_idx).1 <= gs.len(),
{
    let chars = flatten(gs);
    let k = if flat_idx < gs.len() { flat_idx } else { gs.len() as int };
    let ci = flatten(gs.take(k)).len() as int;
    lemma_prefix_len(gs, k);
    lemma_word_run_bounds(chars, ci);
    let on_word = ci < chars.len() && is_word_char(chars[ci]);
    let sc = if on_word { word_run_start(chars, ci) } else { ci };
    let ec = if on_word {
        word_run_end(chars, ci)
    } else if ci < chars.len() {
        ci + 1
    } else {
        ci
    };
    lemma_starts_at(gs, sc);
    lemma_ends_at(gs, ec);
    if let Some(j) = starts_at(gs, sc) {
        if let Some(e) = ends_at(gs, ec) {
            if j > e {
                lemma_prefix_strict(gs, e, j);
            }
        }
    }
}

} // verus!
