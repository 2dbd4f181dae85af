use unicode_segmentation::UnicodeSegmentation;
use vstd::prelude::*;

verus! {

/// Concatenation of a sequence of character sequences.
pub open spec fn flatten(gs: Seq<Seq<char>>) -> Seq<char>
    decreases gs.len(),
{
    if gs.len() == 0 {
        Seq::empty()
    } else {
        flatten(gs.drop_last()) + gs.last()
    }
}

/// Appends one character to a string.
#[verifier::external_body]
pub(crate) fn push_char(s: &mut String, c: char)
    ensures
        final(s)@ == old(s)@.push(c),
{
    s.push(c);
}

/// The characters of `s` other than line feed and carriage return, in order.
pub open spec fn strip_newlines(s: Seq<char>) -> Seq<char>
    decreases s.len(),
{
    if s.len() == 0 {
        Seq::empty()
    } else if s.last() == '\n' || s.last() == '\r' {
        strip_newlines(s.drop_last())
    } else {
        strip_newlines(s.drop_last()).push(s.last())
    }
}

/// The extended grapheme clusters of a string, as `unicode_segmentation`
/// computes them.
pub uninterp spec fn grapheme_clusters(s: Seq<char>) -> Seq<Seq<char>>;

/// The views of a sequence of strings.
pub open spec fn views(v: Seq<String>) -> Seq<Seq<char>> {
    v.map_values(|g: String| g@)
}

/// Splits a string into its extended grapheme clusters with
/// `UnicodeSegmentation::graphemes(s, true)`. The contract claims that the
/// result is the crate's segmentation of `s`, that the clusters put back
/// together give `s`, and that no cluster is empty; the crate yields
/// consecutive, non-empty slices that cover the string.
#[verifier::external_body]
pub(crate) fn split_graphemes(s: &str) -> (r: Vec<String>)
    ensures
        views(r@) == grapheme_clusters(s@),
        flatten(views(r@)) == s@,
        forall|i: int| 0 <= i < r@.len() ==> #[trigger] r@[i]@.len() > 0,
{
    s.graphemes(true).map(|g| g.to_string()).collect()
}

/// Whether a non-ASCII character is alphabetic or numeric in the Unicode
/// sense.
pub uninterp spec fn is_alphanumeric_char(c: char) -> bool;

/// `char::is_alphanumeric`: ASCII letters and digits, and for the rest of
/// Unicode the alphabetic and numeric characters.
pub open spec fn alphanumeric(c: char) -> bool {
    if (c as u32) < 128 {
        is_ascii_alnum(c)
    } else {
        is_alphanumeric_char(c)
    }
}

/// Whether `c` is an ASCII letter or digit.
pub open spec fn is_ascii_alnum(c: char) -> bool {
    ('a' <= c && c <= 'z') || ('A' <= c && c <= 'Z') || ('0' <= c && c <= '9')
}

/// Calls `char::is_alphanumeric`. The contract spells the result out for
/// ASCII (letters and digits) and names it for the rest of Unicode.
#[verifier::external_body]
pub(crate) fn char_is_alphanumeric(c: char) -> (b: bool)
    ensures
        b == (if (c as u32) < 128 {
            is_ascii_alnum(c)
        } else {
            is_alphanumeric_char(c)
        }),
{
    c.is_alphanumeric()
}

/// Concatenates strings.
pub fn concat_strings(parts: &[String]) -> (out: String)
    ensures
        out@ == flatten(views(parts@)),
{
    let mut out = String::new();
    let n = parts.len();
    for i in 0..n
        invariant
            n == parts@.len(),
            out@ == flatten(views(parts@.take(i as int))),
    {
        out.append(parts[i].as_str());
        proof {
            assert(views(parts@.take(i + 1)).drop_last() =~= views(parts@.take(i as int)));
        }
    }
    assert(parts@.take(n as int) =~= parts@);
    out
}

/// A character of one of the parts occurs in their concatenation.
pub proof fn lemma_flatten_contains(gs: Seq<Seq<char>>, i: int, j: int)
    requires
        0 <= i < gs.len(),
        0 <= j < gs[i].len(),
    ensures
        flatten(gs).contains(gs[i][j]),
    decreases gs.len(),
{
    if i == gs.len() - 1 {
        let f = flatten(gs.drop_last());
        assert(flatten(gs)[f.len() + j] == gs[i][j]);
    } else {
        lemma_flatten_contains(gs.drop_last(), i, j);
        let w = choose|k: int| 0 <= k < flatten(gs.drop_last()).len() && flatten(gs.drop_last())[k] == gs[i][j];
        assert(flatten(gs)[w] == gs[i][j]);
    }
}

/// Stripping line feeds and carriage returns leaves none.
pub proof fn lemma_strip_newlines_has_none(s: Seq<char>)
    ensures
        !strip_newlines(s).contains('\n'),
        !strip_newlines(s).contains('\r'),
    decreases s.len(),
{
    if s.len() > 0 {
        lemma_strip_newlines_has_none(s.drop_last());
        let t = strip_newlines(s.drop_last());
        if !(s.last() == '\n' || s.last() == '\r') {
            assert forall|k: int| 0 <= k < t.push(s.last()).len() implies t.push(s.last())[k] != '\n'
                && t.push(s.last())[k] != '\r' by {
                if k < t.len() {
                    assert(t.push(s.last())[k] == t[k]);
                }
            }
        }
    }
}

/// Whether two strings hold the same characters.
pub fn str_eq(a: &str, b: &str) -> (r: bool)
    ensures
        r == (a@ == b@),
{
    let n = a.unicode_len();
    if n != b.unicode_len() {
        return false;
    }
    let mut i: usize = 0;
    while i < n
        invariant
            i <= n,
            n == a@.len(),
            n == b@.len(),
            forall|j: int| 0 <= j < i ==> a@[j] == b@[j],
        decreases n - i,
    {
        if a.get_char(i) != b.get_char(i) {
            return false;
        }
        i = i + 1;
    }
    assert(a@ =~= b@);
    true
}

/// Whether a non-ASCII character has the Unicode `White_Space` property:
/// next line, no-break space, Ogham space mark, the spaces from en quad to
/// hair space, line and paragraph separators, narrow no-break space, medium
/// mathematical space and ideographic space.
pub open spec fn is_whitespace_char(c: char) -> bool {
    let u = c as u32;
    ||| u == 0x85
    ||| u == 0xA0
    ||| u == 0x1680
    ||| (0x2000 <= u && u <= 0x200A)
    ||| u == 0x2028
    ||| u == 0x2029
    ||| u == 0x202F
    ||| u == 0x205F
    ||| u == 0x3000
}

/// The Unicode `White_Space` property: for ASCII, the six characters of
/// `is_ascii_white_space`.
pub open spec fn white_space(c: char) -> bool {
    if (c as u32) < 128 {
        is_ascii_white_space(c)
    } else {
        is_whitespace_char(c)
    }
}

/// `s` without its leading whitespace.
pub open spec fn trim_start(s: Seq<char>) -> Seq<char>
    decreases s.len(),
{
    if s.len() > 0 && white_space(s[0]) {
        trim_start(s.drop_first())
    } else {
        s
    }
}

/// `s` without its trailing whitespace.
pub open spec fn trim_end(s: Seq<char>) -> Seq<char>
    decreases s.len(),
{
    if s.len() > 0 && white_space(s.last()) {
        trim_end(s.drop_last())
    } else {
        s
    }
}

/// The ASCII characters that are white space: tab, line feed, vertical tab,
/// form feed, carriage return and space.
pub open spec fn is_ascii_white_space(c: char) -> bool {
    c == ' ' || c == '\t' || c == '\n' || c == '\u{b}' || c == '\u{c}' || c == '\r'
}

/// Calls `str::trim`, which removes leading and trailing white space as the
/// Unicode `White_Space` property defines it. The contract states that
/// removal, with the property spelled out.
#[verifier::external_body]
pub(crate) fn trim_str(s: &str) -> (r: &str)
    ensures
        r@ == trim_end(trim_start(s@)),
        r@.len() > 0 ==> !(if (r@[0] as u32) < 128 {
            is_ascii_white_space(r@[0])
        } else {
            is_whitespace_char(r@[0])
        }),
{
    s.trim()
}

/// Copies `text` without its line feeds and carriage returns.
pub fn chars_without_newlines(text: &str) -> (out: String)
    ensures
        out@ == strip_newlines(text@),
{
    let mut out = String::new();
    let ghost full = text@;
    for c in it: text.chars()
        invariant
            it.seq() == full,
            out@ == strip_newlines(full.take(it.index() as int)),
    {
        assert(c == full[it.index() as int]);
        if c != '\n' && c != '\r' {
            push_char(&mut out, c);
        }
        proof {
            let n = it.index() as int;
            assert(full.take(n + 1).drop_last() =~= full.take(n));
            assert(full.take(n + 1).last() == c);
        }
    }
    assert(full.take(full.len() as int) =~= full);
    out
}

} // verus!
