//! Character-level helpers shared by the CLI output framers: Unicode
//! whitespace, trimming, UTF-8 byte widths and string construction.

use vstd::prelude::*;

verus! {

/// `char::is_whitespace`: the Unicode `White_Space` property.
pub open spec fn is_ws(c: char) -> bool {
    let u = c as u32;
    ||| 0x09 <= u <= 0x0d
    ||| u == 0x20
    ||| u == 0x85
    ||| u == 0xa0
    ||| u == 0x1680
    ||| 0x2000 <= u <= 0x200a
    ||| u == 0x2028
    ||| u == 0x2029
    ||| u == 0x202f
    ||| u == 0x205f
    ||| u == 0x3000
}

/// Whether `c` has the Unicode `White_Space` property.
pub fn is_whitespace(c: char) -> (r: bool)
    ensures
        r == is_ws(c),
{
    let u = c as u32;
    (0x09 <= u && u <= 0x0d) || u == 0x20 || u == 0x85 || u == 0xa0 || u == 0x1680 || (0x2000
        <= u && u <= 0x200a) || u == 0x2028 || u == 0x2029 || u == 0x202f || u == 0x205f || u
        == 0x3000
}

/// Index of the first non-whitespace character at or after `i` (or `s.len()`).
pub open spec fn lead_from(s: Seq<char>, i: int) -> int
    decreases s.len() - i,
{
    if i < 0 || i >= s.len() {
        s.len() as int
    } else if is_ws(s[i]) {
        lead_from(s, i + 1)
    } else {
        i
    }
}

/// One past the last non-whitespace character at or before `j - 1` (or 0).
pub open spec fn trail_to(s: Seq<char>, j: int) -> int
    decreases j,
{
    if j <= 0 || j > s.len() {
        0
    } else if is_ws(s[j - 1]) {
        trail_to(s, j - 1)
    } else {
        j
    }
}

/// `str::trim`: `s` without leading and trailing whitespace.
pub open spec fn trim(s: Seq<char>) -> Seq<char> {
    let a = lead_from(s, 0);
    if a >= s.len() {
        Seq::empty()
    } else {
        s.subrange(a, trail_to(s, s.len() as int))
    }
}

/// Every character of `s` is whitespace.
pub open spec fn all_ws(s: Seq<char>) -> bool {
    forall|i: int| 0 <= i < s.len() ==> is_ws(#[trigger] s[i])
}

/// A sequence that neither starts nor ends with whitespace.
pub open spec fn is_trimmed(s: Seq<char>) -> bool {
    s.len() > 0 ==> !is_ws(s[0]) && !is_ws(s.last())
}

pub proof fn lemma_lead_from(s: Seq<char>, i: int)
    requires
        0 <= i <= s.len(),
    ensures
        i <= lead_from(s, i) <= s.len(),
        forall|k: int| i <= k < lead_from(s, i) ==> is_ws(#[trigger] s[k]),
        lead_from(s, i) < s.len() ==> !is_ws(s[lead_from(s, i)]),
    decreases s.len() - i,
{
    if i < s.len() && is_ws(s[i]) {
        lemma_lead_from(s, i + 1);
    }
}

pub proof fn lemma_trail_to(s: Seq<char>, j: int)
    requires
        0 <= j <= s.len(),
    ensures
        0 <= trail_to(s, j) <= j,
        forall|k: int| trail_to(s, j) <= k < j ==> is_ws(#[trigger] s[k]),
        trail_to(s, j) > 0 ==> !is_ws(s[trail_to(s, j) - 1]),
    decreases j,
{
    if j > 0 && is_ws(s[j - 1]) {
        lemma_trail_to(s, j - 1);
    }
}

/// Facts about `trim`: it is empty exactly when `s` is all whitespace, and
/// otherwise a non-empty, trimmed infix of `s`.
pub proof fn lemma_trim(s: Seq<char>)
    ensures
        trim(s).len() == 0 <==> all_ws(s),
        is_trimmed(trim(s)),
        s.len() > 0 && !is_ws(s.last()) ==> trim(s).len() > 0 && trim(s).last() == s.last(),
{
    lemma_lead_from(s, 0);
    lemma_trail_to(s, s.len() as int);
    let a = lead_from(s, 0);
    let b = trail_to(s, s.len() as int);
    if a < s.len() {
        if b <= a {
            assert(is_ws(s[a]));
        }
        assert(!all_ws(s)) by {
            assert(!is_ws(s[a]));
        }
        assert(trim(s)[0] == s[a]);
        assert(trim(s).last() == s[b - 1]);
    } else {
        assert forall|i: int| 0 <= i < s.len() implies is_ws(#[trigger] s[i]) by {}
    }
}

/// Bounds of the trimmed part of `s`: `(start, end)` with `trim(s) == s[start..end]`
/// when `s` is not all whitespace, and `start == s.len()` otherwise.
pub fn trim_bounds(s: &Vec<char>) -> (r: (usize, usize))
    ensures
        r.0 == lead_from(s@, 0),
        r.1 == trail_to(s@, s@.len() as int),
        r.0 < s@.len() ==> r.0 < r.1 <= s@.len() && trim(s@) == s@.subrange(r.0 as int, r.1 as int),
        r.0 >= s@.len() ==> trim(s@) == Seq::<char>::empty() && r.0 == s@.len(),
{
    let n = s.len();
    let mut a: usize = 0;
    while a < n && is_whitespace(s[a])
        invariant
            n == s@.len(),
            a <= n,
            lead_from(s@, 0) == lead_from(s@, a as int),
        decreases n - a,
    {
        a = a + 1;
    }
    let mut b: usize = n;
    while b > 0 && is_whitespace(s[b - 1])
        invariant
            n == s@.len(),
            b <= n,
            trail_to(s@, n as int) == trail_to(s@, b as int),
        decreases b,
    {
        b = b - 1;
    }
    proof {
        lemma_lead_from(s@, 0);
        lemma_trail_to(s@, n as int);
        if a < n {
            assert(!is_ws(s@[a as int]));
            if b <= a {
                assert(is_ws(s@[a as int]));
            }
        }
    }
    (a, b)
}

/// `str::trim`: the part of `s` without leading and trailing whitespace.
pub fn trim_str(s: &str) -> (r: &str)
    ensures
        r@ == trim(s@),
{
    let chars = chars_of(s);
    let (a, b) = trim_bounds(&chars);
    if a < chars.len() {
        s.substring_char(a, b)
    } else {
        s.substring_char(0, 0)
    }
}

/// Whether every character of `s` is whitespace (`s.trim().is_empty()`).
pub fn is_blank(s: &Vec<char>) -> (r: bool)
    ensures
        r == all_ws(s@),
        r == (trim(s@).len() == 0),
{
    proof {
        lemma_trim(s@);
    }
    let (a, _b) = trim_bounds(s);
    a >= s.len()
}

/// Number of bytes in the UTF-8 encoding of `c`.
pub open spec fn utf8_width(c: char) -> nat {
    let u = c as u32;
    if u < 0x80 {
        1
    } else if u < 0x800 {
        2
    } else if u < 0x10000 {
        3
    } else {
        4
    }
}

/// Number of bytes in the UTF-8 encoding of `s`.
pub open spec fn utf8_len(s: Seq<char>) -> nat
    decreases s.len(),
{
    if s.len() == 0 {
        0
    } else {
        utf8_len(s.drop_last()) + utf8_width(s.last())
    }
}

pub proof fn lemma_utf8_len_push(s: Seq<char>, c: char)
    ensures
        utf8_len(s.push(c)) == utf8_len(s) + utf8_width(c),
{
    assert(s.push(c).drop_last() =~= s);
}

/// `char::len_utf8`.
pub fn char_width(c: char) -> (r: usize)
    ensures
        r == utf8_width(c),
        1 <= r <= 4,
{
    let u = c as u32;
    if u < 0x80 {
        1
    } else if u < 0x800 {
        2
    } else if u < 0x10000 {
        3
    } else {
        4
    }
}

/// The characters of `s`, in order.
pub fn chars_of(s: &str) -> (r: Vec<char>)
    ensures
        r@ == s@,
{
    let mut out: Vec<char> = Vec::new();
    for c in it: s.chars()
        invariant
            it.seq() == s@,
            out@ == it.seq().take(it.index() as int),
    {
        out.push(c);
    }
    out
}

/// `String::from_iter` over `chars`: a `String` holding exactly those
/// characters, in order.
#[verifier::external_body]
pub fn string_from_chars(chars: &[char]) -> (r: String)
    ensures
        r@ == chars@,
{
    String::from_iter(chars)
}

/// Copy of `v[start..end]`.
pub fn slice_chars(v: &Vec<char>, start: usize, end: usize) -> (r: Vec<char>)
    requires
        start <= end <= v@.len(),
    ensures
        r@ == v@.subrange(start as int, end as int),
{
    let mut out: Vec<char> = Vec::new();
    let mut i = start;
    while i < end
        invariant
            start <= i <= end <= v@.len(),
            out@ == v@.subrange(start as int, i as int),
        decreases end - i,
    {
        out.push(v[i]);
        i = i + 1;
    }
    out
}

/// Whether the two slices hold the same text, compared byte by byte: UTF-8
/// encodes equal texts, and only equal texts, to equal bytes.
pub fn str_eq(a: &str, b: &str) -> (r: bool)
    ensures
        r == (a@ == b@),
{
    let x = a.as_bytes();
    let y = b.as_bytes();
    proof {
        vstd::utf8::encode_utf8_decode_utf8(a@);
        vstd::utf8::encode_utf8_decode_utf8(b@);
    }
    if x.len() != y.len() {
        return false;
    }
    let mut i: usize = 0;
    while i < x.len()
        invariant
            x@ == vstd::utf8::encode_utf8(a@),
            y@ == vstd::utf8::encode_utf8(b@),
            x@.len() == y@.len(),
            0 <= i <= x@.len(),
            forall|k: int| 0 <= k < i ==> x@[k] == y@[k],
        decreases x@.len() - i,
    {
        if x[i] != y[i] {
            return false;
        }
        i = i + 1;
    }
    assert(x@ =~= y@);
    true
}

/// The text of an optional string slice.
pub open spec fn opt_str(o: Option<&str>) -> Option<Seq<char>> {
    match o {
        Some(s) => Some(s@),
        None => None,
    }
}

/// `a == b` on an optional string and a literal.
pub fn opt_is(a: &Option<String>, b: &str) -> (r: bool)
    ensures
        r == (a matches Some(s) && s@ == b@),
{
    match a {
        Some(s) => str_eq(s.as_str(), b),
        None => false,
    }
}

} // verus!
