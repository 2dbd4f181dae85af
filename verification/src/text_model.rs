use vstd::prelude::*;

use crate::textkit::{
    char_is_alphanumeric, alphanumeric, concat_strings, flatten, grapheme_clusters,
    split_graphemes, views,
};

verus! {

// ── Spec layer: a buffer is a sequence of grapheme clusters ─────────────────

/// A cluster that ends a line: `"\n"` or `"\r\n"`.
pub open spec fn is_line_break(g: Seq<char>) -> bool {
    g == seq!['\n'] || g == seq!['\r', '\n']
}

/// A buffer without line breaks.
pub open spec fn no_line_breaks(gs: Seq<Seq<char>>) -> bool {
    forall|i: int| 0 <= i < gs.len() ==> !is_line_break(#[trigger] gs[i])
}

/// A cluster that belongs to a word: it starts with an alphanumeric character
/// or an underscore.
pub open spec fn is_word_grapheme(g: Seq<char>) -> bool {
    g.len() > 0 && (alphanumeric(g[0]) || g[0] == '_')
}

/// A position clamped to the end of the buffer.
pub open spec fn clamp_pos(gs: Seq<Seq<char>>, pos: int) -> int {
    if pos < gs.len() {
        pos
    } else {
        gs.len() as int
    }
}

/// Moving left from `i`, the first position whose left neighbour is not
/// (`word`) / is not a non-word cluster (`!word`).
pub open spec fn skip_back(gs: Seq<Seq<char>>, i: int, word: bool) -> int
    decreases i,
{
    if i <= 0 {
        i
    } else if is_word_grapheme(gs[i - 1]) != word {
        i
    } else {
        skip_back(gs, i - 1, word)
    }
}

/// Moving right from `i`, the first position whose cluster is not of the kind
/// `word`.
pub open spec fn skip_fwd(gs: Seq<Seq<char>>, i: int, word: bool) -> int
    decreases gs.len() - i,
{
    if i >= gs.len() {
        i
    } else if is_word_grapheme(gs[i]) != word {
        i
    } else {
        skip_fwd(gs, i + 1, word)
    }
}

/// Start of the word before `pos`: skip the non-word clusters to the left,
/// then the word clusters.
pub open spec fn word_start(gs: Seq<Seq<char>>, pos: int) -> int {
    skip_back(gs, skip_back(gs, clamp_pos(gs, pos), false), true)
}

/// End of the word at or after `pos`: skip the word clusters to the right,
/// then the non-word clusters.
pub open spec fn word_end(gs: Seq<Seq<char>>, pos: int) -> int {
    skip_fwd(gs, skip_fwd(gs, clamp_pos(gs, pos), true), false)
}

/// The word that contains the cluster at `idx`, or that single cluster when it
/// is not a word cluster, or the empty range at the end of the buffer.
pub open spec fn word_range(gs: Seq<Seq<char>>, idx: int) -> (int, int) {
    let p = clamp_pos(gs, idx);
    if p < gs.len() && is_word_grapheme(gs[p]) {
        (skip_back(gs, p, true), skip_fwd(gs, p, true))
    } else if p < gs.len() {
        (p, p + 1)
    } else {
        (p, p)
    }
}

/// The first line break at or after `i`, or the end of the buffer.
pub open spec fn line_end(gs: Seq<Seq<char>>, i: int) -> int
    decreases gs.len() - i,
{
    if i >= gs.len() {
        gs.len() as int
    } else if is_line_break(gs[i]) {
        i
    } else {
        line_end(gs, i + 1)
    }
}

/// The start of the line that holds position `i`.
pub open spec fn line_begin(gs: Seq<Seq<char>>, i: int) -> int
    decreases i,
{
    if i <= 0 {
        0
    } else if is_line_break(gs[i - 1]) {
        i
    } else {
        line_begin(gs, i - 1)
    }
}

/// Number of line breaks among the first `i` clusters.
pub open spec fn breaks_before(gs: Seq<Seq<char>>, i: int) -> nat
    decreases i,
{
    if i <= 0 {
        0
    } else {
        breaks_before(gs, i - 1) + if is_line_break(gs[i - 1]) {
            1nat
        } else {
            0nat
        }
    }
}

/// Number of lines: one more than the number of line breaks.
pub open spec fn line_count_of(gs: Seq<Seq<char>>) -> nat {
    breaks_before(gs, gs.len() as int) + 1
}

/// Flat index where line `row` starts; the end of the buffer for rows past
/// the last line.
pub open spec fn line_start(gs: Seq<Seq<char>>, row: nat) -> int
    decreases row,
{
    if row == 0 {
        0
    } else {
        let e = line_end(gs, line_start(gs, (row - 1) as nat));
        if e >= gs.len() {
            gs.len() as int
        } else {
            e + 1
        }
    }
}

/// Number of clusters on line `row`, the line break excluded.
pub open spec fn line_len(gs: Seq<Seq<char>>, row: nat) -> int {
    line_end(gs, line_start(gs, row)) - line_start(gs, row)
}

/// (row, column) of flat position `pos` (clamped to the buffer).
pub open spec fn rowcol_of(gs: Seq<Seq<char>>, pos: int) -> (nat, int) {
    let p = clamp_pos(gs, pos);
    (breaks_before(gs, p), p - line_begin(gs, p))
}

/// Flat position of (row, col), the column clamped to the line's length.
pub open spec fn flat_of(gs: Seq<Seq<char>>, row: nat, col: int) -> int {
    let l = line_len(gs, row);
    line_start(gs, row) + if col < l {
        col
    } else {
        l
    }
}

/// The clusters between two positions, both clamped, as one character
/// sequence; empty when `start >= end`.
pub open spec fn text_between(gs: Seq<Seq<char>>, start: int, end: int) -> Seq<char> {
    let b = clamp_pos(gs, end);
    let a = clamp_pos(gs, start);
    if a < b {
        flatten(gs.subrange(a, b))
    } else {
        Seq::empty()
    }
}

/// The buffer with the clusters between two clamped positions removed.
pub open spec fn remove_between(gs: Seq<Seq<char>>, start: int, end: int) -> Seq<Seq<char>> {
    let b = clamp_pos(gs, end);
    let a = clamp_pos(gs, start);
    if a < b {
        gs.take(a) + gs.skip(b)
    } else {
        gs
    }
}

/// Once a line start reaches the end of the buffer, later rows start there
/// too.
proof fn lemma_line_start_saturates(gs: Seq<Seq<char>>, r: nat, row: nat)
    requires
        line_start(gs, r) == gs.len(),
        r <= row,
    ensures
        line_start(gs, row) == gs.len(),
    decreases row - r,
{
    if r < row {
        assert(line_end(gs, gs.len() as int) == gs.len());
        assert(line_start(gs, r + 1) == gs.len());
        lemma_line_start_saturates(gs, r + 1, row);
    }
}

/// A row reported for a position is below the number of lines.
pub proof fn lemma_rows_bounded(gs: Seq<Seq<char>>, pos: int)
    requires
        0 <= pos,
    ensures
        rowcol_of(gs, pos).0 < line_count_of(gs),
        line_count_of(gs) <= gs.len() + 1,
{
    lemma_breaks_monotone(gs, clamp_pos(gs, pos), gs.len() as int);
    lemma_breaks_monotone(gs, gs.len() as int, gs.len() as int);
}

/// The line end from `i` lies between `i` and the end of the buffer.
pub proof fn lemma_line_end_bounds(gs: Seq<Seq<char>>, i: int)
    requires
        0 <= i <= gs.len(),
    ensures
        i <= line_end(gs, i) <= gs.len(),
    decreases gs.len() - i,
{
    if i < gs.len() {
        lemma_line_end_bounds(gs, i + 1);
    }
}

/// A position is on the last line exactly when no line break follows it.
pub proof fn lemma_last_line(gs: Seq<Seq<char>>, p: int)
    requires
        0 <= p <= gs.len(),
    ensures
        (line_end(gs, p) == gs.len()) == (breaks_before(gs, gs.len() as int) == breaks_before(gs, p)),
    decreases gs.len() - p,
{
    if p < gs.len() {
        lemma_last_line(gs, p + 1);
        lemma_breaks_monotone(gs, p + 1, gs.len() as int);
    }
}

/// Line breaks before `i` are at most those before `j >= i`, and at most `j`.
pub proof fn lemma_breaks_monotone(gs: Seq<Seq<char>>, i: int, j: int)
    requires
        0 <= i <= j,
    ensures
        breaks_before(gs, i) <= breaks_before(gs, j),
        breaks_before(gs, j) <= j,
    decreases j,
{
    if j > 0 {
        if i < j {
            lemma_breaks_monotone(gs, i, j - 1);
        } else {
            lemma_breaks_monotone(gs, i - 1, j - 1);
        }
    }
}

/// Flattening distributes over concatenation.
pub proof fn lemma_flatten_append(a: Seq<Seq<char>>, b: Seq<Seq<char>>)
    ensures
        flatten(a + b) == flatten(a) + flatten(b),
    decreases b.len(),
{
    if b.len() == 0 {
        assert(a + b =~= a);
        assert(flatten(b) =~= Seq::<char>::empty());
        assert(flatten(a) + flatten(b) =~= flatten(a));
    } else {
        lemma_flatten_append(a, b.drop_last());
        assert((a + b).drop_last() =~= a + b.drop_last());
        assert(flatten(a + b) =~= flatten(a + b.drop_last()) + b.last());
    }
}

/// The line end seen from the start of a line is the line end seen from any
/// position on it.
proof fn lemma_line_end_from_begin(gs: Seq<Seq<char>>, p: int)
    requires
        0 <= p <= gs.len(),
    ensures
        line_end(gs, line_begin(gs, p)) == line_end(gs, p),
    decreases p,
{
    if p > 0 && !is_line_break(gs[p - 1]) {
        lemma_line_end_from_begin(gs, p - 1);
    }
}

/// Line `breaks_before(p)` starts where the line of `p` begins.
proof fn lemma_line_start_of_row(gs: Seq<Seq<char>>, p: int)
    requires
        0 <= p <= gs.len(),
    ensures
        line_start(gs, breaks_before(gs, p)) == line_begin(gs, p),
    decreases p,
{
    if p > 0 {
        lemma_line_start_of_row(gs, p - 1);
        if is_line_break(gs[p - 1]) {
            lemma_line_end_from_begin(gs, p - 1);
            assert(breaks_before(gs, p) == breaks_before(gs, p - 1) + 1);
        }
    }
}

/// Going from a flat position to (row, column) and back gives the position:
/// the row and column that `flat_to_rowcol` reports are ones that
/// `rowcol_to_flat` maps back to it.
pub proof fn law_rowcol_roundtrip(gs: Seq<Seq<char>>, p: int)
    requires
        0 <= p <= gs.len(),
    ensures
        flat_of(gs, rowcol_of(gs, p).0, rowcol_of(gs, p).1) == p,
{
    lemma_line_start_of_row(gs, p);
    lemma_line_end_from_begin(gs, p);
    lemma_line_end_bounds(gs, p);
}

proof fn lemma_skip_back_le(gs: Seq<Seq<char>>, i: int, word: bool)
    requires
        0 <= i,
    ensures
        0 <= skip_back(gs, i, word) <= i,
    decreases i,
{
    if i > 0 {
        lemma_skip_back_le(gs, i - 1, word);
    }
}

proof fn lemma_skip_fwd_ge(gs: Seq<Seq<char>>, i: int, word: bool)
    requires
        0 <= i <= gs.len(),
    ensures
        i <= skip_fwd(gs, i, word) <= gs.len(),
    decreases gs.len() - i,
{
    if i < gs.len() {
        lemma_skip_fwd_ge(gs, i + 1, word);
    }
}

/// A position lies between the start of the word before it and the end of the
/// word after it, and both lie in the buffer.
pub proof fn law_word_bounds_bracket(gs: Seq<Seq<char>>, pos: int)
    requires
        0 <= pos,
    ensures
        0 <= word_start(gs, pos) <= clamp_pos(gs, pos) <= word_end(gs, pos) <= gs.len(),
{
    let p = clamp_pos(gs, pos);
    lemma_skip_back_le(gs, p, false);
    lemma_skip_back_le(gs, skip_back(gs, p, false), true);
    lemma_skip_fwd_ge(gs, p, true);
    lemma_skip_fwd_ge(gs, skip_fwd(gs, p, true), false);
}

/// The start of the line of `p` lies between 0 and `p`.
pub proof fn lemma_line_begin_bounds(gs: Seq<Seq<char>>, p: int)
    requires
        0 <= p,
    ensures
        0 <= line_begin(gs, p) <= p,
    decreases p,
{
    if p > 0 {
        lemma_line_begin_bounds(gs, p - 1);
    }
}

/// Every position of line `row` lies in the buffer: a line starts and ends
/// inside it.
pub proof fn lemma_line_start_bounds(gs: Seq<Seq<char>>, row: nat)
    ensures
        0 <= line_start(gs, row) <= gs.len(),
        line_start(gs, row) <= line_end(gs, line_start(gs, row)) <= gs.len(),
    decreases row,
{
    if row > 0 {
        lemma_line_start_bounds(gs, (row - 1) as nat);
        lemma_line_end_bounds(gs, line_start(gs, (row - 1) as nat));
    }
    lemma_line_end_bounds(gs, line_start(gs, row));
}

// ── Executable model ────────────────────────────────────────────────────────

/// The text buffer of an input: a sequence of grapheme clusters, with an
/// optional limit on their number.
pub struct TextModel {
    clusters: Vec<String>,
    /// The most clusters the buffer takes by insertion.
    pub max_length: Option<usize>,
}

impl View for TextModel {
    type V = Seq<Seq<char>>;

    closed spec fn view(&self) -> Seq<Seq<char>> {
        views(self.clusters@)
    }
}

fn cluster_is_word(g: &String) -> (b: bool)
    ensures
        b == is_word_grapheme(g@),
{
    let s = g.as_str();
    if s.unicode_len() == 0 {
        false
    } else {
        let c = s.get_char(0);
        char_is_alphanumeric(c) || c == '_'
    }
}

fn cluster_is_line_break(g: &String) -> (b: bool)
    ensures
        b == is_line_break(g@),
{
    let s = g.as_str();
    let n = s.unicode_len();
    if n == 1 {
        let r = s.get_char(0) == '\n';
        proof {
            if !r {
                assert(g@ != seq!['\n']);
            }
            assert(g@ != seq!['\r', '\n']);
            if r {
                assert(g@ =~= seq!['\n']);
            }
        }
        r
    } else if n == 2 {
        let r = s.get_char(0) == '\r' && s.get_char(1) == '\n';
        proof {
            assert(g@ != seq!['\n']);
            if r {
                assert(g@ =~= seq!['\r', '\n']);
            } else {
                assert(g@ != seq!['\r', '\n']);
            }
        }
        r
    } else {
        proof {
            assert(g@ != seq!['\n']);
            assert(g@ != seq!['\r', '\n']);
        }
        false
    }
}

impl TextModel {
    /// The limit on the number of clusters, if any.
    pub closed spec fn limit(&self) -> Option<usize> {
        self.max_length
    }

    pub fn max_length(&self) -> (m: Option<usize>)
        ensures
            m == self.limit(),
    {
        self.max_length
    }

    /// Sets the limit on the number of clusters. Text already in the buffer is
    /// kept; the limit holds back later insertions.
    pub fn set_max_length(&mut self, max_length: Option<usize>)
        ensures
            final(self).limit() == max_length,
            final(self)@ == old(self)@,
    {
        self.max_length = max_length;
    }

    pub fn new() -> (m: Self)
        ensures
            m@ == Seq::<Seq<char>>::empty(),
            m.limit() is None,
    {
        let m = TextModel { clusters: Vec::new(), max_length: None };
        assert(m@ =~= Seq::<Seq<char>>::empty());
        m
    }

    pub fn grapheme_count(&self) -> (n: usize)
        ensures
            n == self@.len(),
    {
        self.clusters.len()
    }

    /// Whole text.
    pub fn text(&self) -> (s: String)
        ensures
            s@ == flatten(self@),
    {
        concat_strings(self.clusters.as_slice())
    }

    /// Replaces the whole buffer with the clusters of `value`.
    pub fn set_value(&mut self, value: &str)
        ensures
            final(self)@ == grapheme_clusters(value@),
            flatten(final(self)@) == value@,
            final(self).limit() == old(self).limit(),
    {
        self.clusters = split_graphemes(value);
    }

    fn clamp(&self, pos: usize) -> (p: usize)
        ensures
            p == clamp_pos(self@, pos as int),
    {
        if pos < self.clusters.len() {
            pos
        } else {
            self.clusters.len()
        }
    }

    /// The text between two flat positions (clamped; empty when reversed).
    pub fn text_in_range(&self, start: usize, end: usize) -> (s: String)
        ensures
            s@ == text_between(self@, start as int, end as int),
    {
        let b = self.clamp(end);
        let a = self.clamp(start);
        let mut out = String::new();
        if a < b {
            let ghost gs = self@;
            let mut i = a;
            assert(gs.subrange(a as int, a as int) =~= Seq::<Seq<char>>::empty());
            while i < b
                invariant
                    a <= i <= b,
                    b <= self.clusters@.len(),
                    gs == self@,
                    out@ == flatten(gs.subrange(a as int, i as int)),
                decreases b - i,
            {
                out.append(self.clusters[i].as_str());
                proof {
                    assert(gs.subrange(a as int, i + 1).drop_last() =~= gs.subrange(
                        a as int,
                        i as int,
                    ));
                    assert(gs[i as int] == self.clusters@[i as int]@);
                }
                i = i + 1;
            }
        }
        out
    }

    fn skip_back_from(&self, i: usize, word: bool) -> (r: usize)
        requires
            i <= self@.len(),
        ensures
            r == skip_back(self@, i as int, word),
            r <= i,
    {
        let mut j = i;
        while j > 0 && cluster_is_word(&self.clusters[j - 1]) == word
            invariant
                j <= i <= self.clusters@.len(),
                skip_back(self@, i as int, word) == skip_back(self@, j as int, word),
            decreases j,
        {
            proof {
                assert(self@[j - 1] == self.clusters@[j - 1]@);
            }
            j = j - 1;
        }
        proof {
            if j > 0 {
                assert(self@[j - 1] == self.clusters@[j - 1]@);
            }
        }
        j
    }

    fn skip_fwd_from(&self, i: usize, word: bool) -> (r: usize)
        requires
            i <= self@.len(),
        ensures
            r == skip_fwd(self@, i as int, word),
            i <= r <= self@.len(),
    {
        let n = self.clusters.len();
        let mut j = i;
        while j < n && cluster_is_word(&self.clusters[j]) == word
            invariant
                i <= j <= n,
                n == self.clusters@.len(),
                skip_fwd(self@, i as int, word) == skip_fwd(self@, j as int, word),
            decreases n - j,
        {
            proof {
                assert(self@[j as int] == self.clusters@[j as int]@);
            }
            j = j + 1;
        }
        proof {
            if j < n {
                assert(self@[j as int] == self.clusters@[j as int]@);
            }
        }
        j
    }

    /// Start of the word before `pos`.
    pub fn find_word_start(&self, pos: usize) -> (r: usize)
        ensures
            r == word_start(self@, pos as int),
    {
        let p = self.clamp(pos);
        let q = self.skip_back_from(p, false);
        self.skip_back_from(q, true)
    }

    /// End of the word at or after `pos`.
    pub fn find_word_end(&self, pos: usize) -> (r: usize)
        ensures
            r == word_end(self@, pos as int),
    {
        let p = self.clamp(pos);
        let q = self.skip_fwd_from(p, true);
        self.skip_fwd_from(q, false)
    }

    /// The word around a cluster (see `word_range`).
    pub fn word_at(&self, idx: usize) -> (r: (usize, usize))
        ensures
            r.0 == word_range(self@, idx as int).0,
            r.1 == word_range(self@, idx as int).1,
    {
        let p = self.clamp(idx);
        if p < self.clusters.len() {
            proof {
                assert(self@[p as int] == self.clusters@[p as int]@);
            }
            if cluster_is_word(&self.clusters[p]) {
                (self.skip_back_from(p, true), self.skip_fwd_from(p, true))
            } else {
                (p, p + 1)
            }
        } else {
            (p, p)
        }
    }

    fn line_end_from(&self, i: usize) -> (r: usize)
        requires
            i <= self@.len(),
        ensures
            r == line_end(self@, i as int),
            i <= r <= self@.len(),
    {
        let n = self.clusters.len();
        let mut j = i;
        while j < n && !cluster_is_line_break(&self.clusters[j])
            invariant
                i <= j <= n,
                n == self.clusters@.len(),
                line_end(self@, i as int) == line_end(self@, j as int),
            decreases n - j,
        {
            proof {
                assert(self@[j as int] == self.clusters@[j as int]@);
            }
            j = j + 1;
        }
        proof {
            if j < n {
                assert(self@[j as int] == self.clusters@[j as int]@);
            }
        }
        j
    }

    fn line_begin_from(&self, i: usize) -> (r: usize)
        requires
            i <= self@.len(),
        ensures
            r == line_begin(self@, i as int),
            r <= i,
    {
        let mut j = i;
        while j > 0 && !cluster_is_line_break(&self.clusters[j - 1])
            invariant
                j <= i <= self.clusters@.len(),
                line_begin(self@, i as int) == line_begin(self@, j as int),
            decreases j,
        {
            proof {
                assert(self@[j - 1] == self.clusters@[j - 1]@);
            }
            j = j - 1;
        }
        proof {
            if j > 0 {
                assert(self@[j - 1] == self.clusters@[j - 1]@);
            }
        }
        j
    }

    /// The line around a position: (start of its line, its line break or the
    /// end of the buffer).
    pub fn line_at(&self, idx: usize) -> (r: (usize, usize))
        ensures
            r.0 == line_begin(self@, clamp_pos(self@, idx as int)),
            r.1 == line_end(self@, clamp_pos(self@, idx as int)),
    {
        let p = self.clamp(idx);
        (self.line_begin_from(p), self.line_end_from(p))
    }

    /// (row, column) of a flat position.
    pub fn flat_to_rowcol(&self, pos: usize) -> (r: (usize, usize))
        ensures
            r.0 == rowcol_of(self@, pos as int).0,
            r.1 == rowcol_of(self@, pos as int).1,
    {
        let p = self.clamp(pos);
        let mut row: usize = 0;
        let mut begin: usize = 0;
        let mut i: usize = 0;
        while i < p
            invariant
                i <= p <= self.clusters@.len(),
                row == breaks_before(self@, i as int),
                begin == line_begin(self@, i as int),
                row <= i,
                begin <= i,
            decreases p - i,
        {
            proof {
                assert(self@[i as int] == self.clusters@[i as int]@);
            }
            if cluster_is_line_break(&self.clusters[i]) {
                row = row + 1;
                begin = i + 1;
            }
            i = i + 1;
        }
        (row, p - begin)
    }

    /// Number of lines.
    pub fn line_count(&self) -> (n: usize)
        ensures
            line_count_of(self@) <= usize::MAX ==> n == line_count_of(self@),
            n >= 1,
    {
        let n = self.clusters.len();
        let mut row: usize = 0;
        let mut i: usize = 0;
        while i < n
            invariant
                i <= n,
                n == self.clusters@.len(),
                row == breaks_before(self@, i as int),
                row <= i,
            decreases n - i,
        {
            proof {
                assert(self@[i as int] == self.clusters@[i as int]@);
            }
            if cluster_is_line_break(&self.clusters[i]) {
                row = row + 1;
            }
            i = i + 1;
        }
        row.saturating_add(1)
    }

    fn line_start_of(&self, row: usize) -> (r: usize)
        ensures
            r == line_start(self@, row as nat),
            r <= self@.len(),
    {
        let n = self.clusters.len();
        let mut s: usize = 0;
        let mut r: usize = 0;
        while r < row
            invariant
                r <= row,
                n == self.clusters@.len(),
                s == line_start(self@, r as nat),
                s <= n,
            decreases row - r,
        {
            if s == n {
                proof {
                    lemma_line_start_saturates(self@, r as nat, row as nat);
                }
                return n;
            }
            let e = self.line_end_from(s);
            if e >= n {
                s = n;
            } else {
                s = e + 1;
            }
            r = r + 1;
        }
        s
    }

    /// Number of clusters on a line, its break excluded.
    pub fn line_grapheme_count(&self, row: usize) -> (n: usize)
        ensures
            n == line_len(self@, row as nat),
    {
        let s = self.line_start_of(row);
        let e = self.line_end_from(s);
        e - s
    }

    /// Flat position of (row, col), the column clamped to the line.
    pub fn rowcol_to_flat(&self, row: usize, col: usize) -> (p: usize)
        ensures
            p == flat_of(self@, row as nat, col as int),
            p <= self@.len(),
    {
        let s = self.line_start_of(row);
        let e = self.line_end_from(s);
        let l = e - s;
        if col < l {
            s + col
        } else {
            e
        }
    }

    /// Removes the clusters between two flat positions (clamped; nothing when
    /// reversed).
    pub fn delete_range(&mut self, start: usize, end: usize)
        ensures
            final(self)@ == remove_between(old(self)@, start as int, end as int),
            final(self).limit() == old(self).limit(),
    {
        let b = self.clamp(end);
        let a = self.clamp(start);
        if a < b {
            let ghost old_v = self.clusters@;
            let mut tail = self.clusters.split_off(b);
            self.clusters.truncate(a);
            self.clusters.append(&mut tail);
            proof {
                assert(self.clusters@ =~= old_v.take(a as int) + old_v.skip(b as int));
                assert(views(self.clusters@) =~= views(old_v).take(a as int) + views(old_v).skip(
                    b as int,
                ));
            }
        }
    }

    /// Deletes the cluster before `pos` (clamped). Returns the new cursor
    /// position, or `None` at the start of the buffer.
    pub fn delete_backward(&mut self, pos: usize) -> (r: Option<usize>)
        ensures
            ({
                let p = clamp_pos(old(self)@, pos as int);
                if p > 0 {
                    &&& r == Some((p - 1) as usize)
                    &&& final(self)@ == remove_between(old(self)@, p - 1, p)
                } else {
                    &&& r is None
                    &&& final(self)@ == old(self)@
                }
            }),
            final(self).limit() == old(self).limit(),
    {
        let p = self.clamp(pos);
        if p == 0 {
            return None;
        }
        self.delete_range(p - 1, p);
        Some(p - 1)
    }

    /// Deletes the cluster at `pos` (clamped). Returns the cursor position, or
    /// `None` at the end of the buffer.
    pub fn delete_forward(&mut self, pos: usize) -> (r: Option<usize>)
        ensures
            ({
                let p = clamp_pos(old(self)@, pos as int);
                if p < old(self)@.len() {
                    &&& r == Some(p as usize)
                    &&& final(self)@ == remove_between(old(self)@, p, p + 1)
                } else {
                    &&& r is None
                    &&& final(self)@ == old(self)@
                }
            }),
            final(self).limit() == old(self).limit(),
    {
        let p = self.clamp(pos);
        if p >= self.clusters.len() {
            return None;
        }
        self.delete_range(p, p + 1);
        Some(p)
    }

    /// Deletes from the start of the word before `pos` to `pos`. Returns the
    /// new cursor position, or `None` when there is nothing to delete.
    pub fn delete_word_backward(&mut self, pos: usize) -> (r: Option<usize>)
        ensures
            ({
                let p = clamp_pos(old(self)@, pos as int);
                let w = word_start(old(self)@, pos as int);
                if w < p {
                    &&& r == Some(w as usize)
                    &&& final(self)@ == remove_between(old(self)@, w, p)
                } else {
                    &&& r is None
                    &&& final(self)@ == old(self)@
                }
            }),
            final(self).limit() == old(self).limit(),
    {
        let p = self.clamp(pos);
        let w = self.find_word_start(pos);
        if w >= p {
            return None;
        }
        self.delete_range(w, p);
        Some(w)
    }

    /// Deletes from `pos` to the end of the word at or after it. Returns the
    /// cursor position, or `None` when there is nothing to delete.
    pub fn delete_word_forward(&mut self, pos: usize) -> (r: Option<usize>)
        ensures
            ({
                let p = clamp_pos(old(self)@, pos as int);
                let w = word_end(old(self)@, pos as int);
                if p < w {
                    &&& r == Some(p as usize)
                    &&& final(self)@ == remove_between(old(self)@, p, w)
                } else {
                    &&& r is None
                    &&& final(self)@ == old(self)@
                }
            }),
            final(self).limit() == old(self).limit(),
    {
        let p = self.clamp(pos);
        let w = self.find_word_end(pos);
        if p >= w {
            return None;
        }
        self.delete_range(p, w);
        Some(p)
    }

    /// Inserts the clusters of `input` at `pos` (clamped). Returns the position
    /// just after them, or `None` when `input` is empty or the limit on the
    /// number of clusters would be passed.
    pub fn insert(&mut self, pos: usize, input: &str) -> (r: Option<usize>)
        ensures
            ({
                let ins = grapheme_clusters(input@);
                let p = clamp_pos(old(self)@, pos as int);
                let fits = match old(self).limit() {
                    Some(m) => old(self)@.len() + ins.len() <= m,
                    None => true,
                };
                if ins.len() > 0 && fits {
                    &&& r == Some((p + ins.len()) as usize)
                    &&& final(self)@ == old(self)@.take(p) + ins + old(self)@.skip(p)
                } else {
                    &&& r is None
                    &&& final(self)@ == old(self)@
                }
            }),
            flatten(grapheme_clusters(input@)) == input@,
            final(self).limit() == old(self).limit(),
    {
        let mut ins = split_graphemes(input);
        let k = ins.len();
        let n = self.clusters.len();
        if k == 0 {
            return None;
        }
        match self.max_length {
            Some(m) => {
                if k > m || n > m - k {
                    return None;
                }
            },
            None => {},
        }
        let p = self.clamp(pos);
        let ghost old_v = self.clusters@;
        let ghost ins_v = ins@;
        let mut tail = self.clusters.split_off(p);
        self.clusters.append(&mut ins);
        self.clusters.append(&mut tail);
        let total = self.clusters.len();
        proof {
            assert(self.clusters@ =~= old_v.take(p as int) + ins_v + old_v.skip(p as int));
            assert(views(self.clusters@) =~= views(old_v).take(p as int) + views(ins_v) + views(
                old_v,
            ).skip(p as int));
        }
        assert(p + k <= total);
        Some(p + k)
    }
}

} // verus!
