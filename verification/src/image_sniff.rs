use vstd::prelude::*;

verus! {

/// ASCII white space as `u8::is_ascii_whitespace` defines it: space, tab,
/// line feed, form feed and carriage return.
pub open spec fn is_ascii_ws(b: u8) -> bool {
    b == 0x20 || b == 0x09 || b == 0x0A || b == 0x0C || b == 0x0D
}

/// The first position at or after `i` that does not hold white space.
pub open spec fn skip_ws(bytes: Seq<u8>, i: int) -> int
    decreases bytes.len() - i,
{
    if 0 <= i < bytes.len() && is_ascii_ws(bytes[i]) {
        skip_ws(bytes, i + 1)
    } else {
        i
    }
}

pub open spec fn in_range(b: u8, lo: u8, hi: u8) -> bool {
    lo <= b && b <= hi
}

/// Whether bytes are well-formed UTF-8: each sequence is one of the forms of
/// the Unicode standard's table of well-formed byte sequences.
pub open spec fn valid_utf8(bytes: Seq<u8>) -> bool
    decreases bytes.len(),
{
    if bytes.len() == 0 {
        true
    } else {
        let b0 = bytes[0];
        let n: int = if b0 <= 0x7F {
            1
        } else if in_range(b0, 0xC2, 0xDF) {
            2
        } else if in_range(b0, 0xE0, 0xEF) {
            3
        } else if in_range(b0, 0xF0, 0xF4) {
            4
        } else {
            0
        };
        let lo1: u8 = if b0 == 0xE0 {
            0xA0
        } else if b0 == 0xF0 {
            0x90
        } else {
            0x80
        };
        let hi1: u8 = if b0 == 0xED {
            0x9F
        } else if b0 == 0xF4 {
            0x8F
        } else {
            0xBF
        };
        &&& n > 0
        &&& bytes.len() >= n
        &&& n >= 2 ==> in_range(bytes[1], lo1, hi1)
        &&& n >= 3 ==> in_range(bytes[2], 0x80, 0xBF)
        &&& n >= 4 ==> in_range(bytes[3], 0x80, 0xBF)
        &&& valid_utf8(bytes.skip(n))
    }
}

/// Calls `std::str::from_utf8` and tells whether it succeeded. The contract
/// claims that it succeeds exactly on well-formed UTF-8, as its documentation
/// says.
#[verifier::external_body]
fn is_utf8(bytes: &[u8]) -> (b: bool)
    ensures
        b == valid_utf8(bytes@),
{
    std::str::from_utf8(bytes).is_ok()
}

/// `<?xml` in bytes.
pub open spec fn xml_tag() -> Seq<u8> {
    seq![0x3Cu8, 0x3Fu8, 0x78u8, 0x6Du8, 0x6Cu8]
}

/// `<svg` in bytes.
pub open spec fn svg_tag() -> Seq<u8> {
    seq![0x3Cu8, 0x73u8, 0x76u8, 0x67u8]
}

/// `pat` occurs in `s` at position `k`.
pub open spec fn occurs_at(s: Seq<u8>, pat: Seq<u8>, k: int) -> bool {
    0 <= k && k + pat.len() <= s.len() && s.subrange(k, k + pat.len()) == pat
}

/// The part of the data a sniff looks at: at most 512 bytes after the
/// leading white space.
pub open spec fn sniff_head(bytes: Seq<u8>) -> Seq<u8> {
    let i = skip_ws(bytes, 0);
    let end = if bytes.len() - i <= 512 { bytes.len() as int } else { i + 512 };
    bytes.subrange(i, end)
}

/// Whether data looks like SVG: its head is UTF-8 that starts with `<?xml`
/// or holds `<svg`.
pub open spec fn svg_like(bytes: Seq<u8>) -> bool {
    let head = sniff_head(bytes);
    &&& valid_utf8(head)
    &&& (occurs_at(head, xml_tag(), 0) || exists|k: int| #[trigger] occurs_at(head, svg_tag(), k))
}

fn occurs_at_exec(s: &[u8], pat: &[u8], k: usize) -> (b: bool)
    requires
        k <= s@.len(),
    ensures
        b == occurs_at(s@, pat@, k as int),
{
    let m = pat.len();
    let n = s.len();
    if n - k < m {
        return false;
    }
    for j in 0..m
        invariant
            m == pat@.len(),
            n == s@.len(),
            k + m <= n,
            k + m <= s@.len(),
            forall|t: int| 0 <= t < j ==> s@[k + t] == pat@[t],
    {
        if s[k + j] != pat[j] {
            proof {
                assert(s@.subrange(k as int, k + m)[j as int] != pat@[j as int]);
            }
            return false;
        }
    }
    assert(s@.subrange(k as int, k + m) =~= pat@);
    true
}

fn contains_at_some(s: &[u8], pat: &[u8]) -> (b: bool)
    ensures
        b == exists|k: int| #[trigger] occurs_at(s@, pat@, k),
{
    let n = s.len();
    let mut k: usize = 0;
    while k <= n
        invariant
            n == s@.len(),
            forall|t: int| 0 <= t < k ==> !#[trigger] occurs_at(s@, pat@, t),
        decreases n + 1 - k,
    {
        if occurs_at_exec(s, pat, k) {
            return true;
        }
        if k == n {
            proof {
                assert forall|t: int| #[trigger] occurs_at(s@, pat@, t) implies false by {
                    assert(t <= n);
                }
            }
            return false;
        }
        k = k + 1;
    }
    false
}

/// Whether encoded image data looks like SVG rather than a raster format
/// (see `svg_like`).
pub fn looks_like_svg(bytes: &[u8]) -> (b: bool)
    ensures
        b == svg_like(bytes@),
{
    let n = bytes.len();
    let mut i: usize = 0;
    while i < n && (bytes[i] == 0x20 || bytes[i] == 0x09 || bytes[i] == 0x0A || bytes[i] == 0x0C
        || bytes[i] == 0x0D)
        invariant
            n == bytes@.len(),
            i <= n,
            skip_ws(bytes@, i as int) == skip_ws(bytes@, 0),
        decreases n - i,
    {
        i = i + 1;
    }
    let end = if n - i <= 512 { n } else { i + 512 };
    let head = slice_range(bytes, i, end);
    assert(head@ == sniff_head(bytes@));
    if !is_utf8(head) {
        return false;
    }
    let xml: [u8; 5] = [0x3C, 0x3F, 0x78, 0x6D, 0x6C];
    let svg: [u8; 4] = [0x3C, 0x73, 0x76, 0x67];
    assert(xml@ =~= xml_tag());
    assert(svg@ =~= svg_tag());
    occurs_at_exec(head, &xml, 0) || contains_at_some(head, &svg)
}

fn slice_range(bytes: &[u8], a: usize, b: usize) -> (r: &[u8])
    requires
        a <= b <= bytes@.len(),
    ensures
        r@ == bytes@.subrange(a as int, b as int),
{
    vstd::slice::slice_subrange(bytes, a, b)
}

} // verus!
