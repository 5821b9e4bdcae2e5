//! GitHub release update checking: version parsing and the decision whether
//! a published release is newer than the running one. Fetching the release
//! is done by the application.

use crate::cli::stream::{decode_lossy, lossy_utf8, strings_view};
use crate::text::{chars_of, lead_from, slice_chars, string_from_chars, trim, trim_bounds, trim_str};
use vstd::prelude::*;

verus! {

/// The version of this build.
pub const CURRENT_VERSION: &'static str = "0.1.23";

/// Errors that can occur while checking for updates.
#[derive(Debug)]
pub enum UpdateError {
    Spawn(std::io::Error),
    Http { code: Option<i32>, stderr: String },
    Parse(serde_json::Error),
    ParseVersion(String),
}

/// Information about an available update.
#[derive(Debug, Clone, PartialEq, Eq)]
pub struct UpdateInfo {
    /// Version string without a leading `v`, e.g. "0.1.23".
    pub version: String,
    /// URL of the release page to open in the browser.
    pub url: String,
}

pub open spec fn is_digit(c: char) -> bool {
    '0' <= c && c <= '9'
}

/// The number the decimal digits `d` spell.
pub open spec fn digits_value(d: Seq<char>) -> nat
    decreases d.len(),
{
    if d.len() == 0 {
        0
    } else {
        digits_value(d.drop_last()) * 10 + ((d.last() as u32) - 48) as nat
    }
}

/// `s` without one leading `+`.
pub open spec fn unsigned_part(s: Seq<char>) -> Seq<char> {
    if s.len() > 0 && s[0] == '+' {
        s.drop_first()
    } else {
        s
    }
}

/// Every character of `d` is an ASCII digit.
pub open spec fn all_digits(d: Seq<char>) -> bool {
    forall|i: int| 0 <= i < d.len() ==> is_digit(#[trigger] d[i])
}

/// `u32::from_str`: an optional `+`, then one or more ASCII digits whose value fits.
pub open spec fn parse_u32_spec(s: Seq<char>) -> Option<u32> {
    let d = unsigned_part(s);
    if d.len() > 0 && all_digits(d) && digits_value(d) <= u32::MAX {
        Some(digits_value(d) as u32)
    } else {
        None
    }
}

/// Parses a decimal `u32` as `str::parse::<u32>` does: an optional `+`
/// followed by one or more ASCII digits, accepted exactly when the value fits
/// in `u32`.
pub fn parse_u32(s: &str) -> (r: Option<u32>)
    ensures
        r == parse_u32_spec(s@),
{
    let chars = chars_of(s);
    let start: usize = if chars.len() > 0 && chars[0] == '+' {
        1
    } else {
        0
    };
    let ghost d = unsigned_part(s@);
    assert(d =~= chars@.skip(start as int));
    if start >= chars.len() {
        return None;
    }
    let mut acc: u64 = 0;
    let mut overflow = false;
    let mut i = start;
    while i < chars.len()
        invariant
            chars@ == s@,
            d == chars@.skip(start as int),
            d == unsigned_part(s@),
            start <= i <= chars@.len(),
            forall|k: int| 0 <= k < i - start ==> is_digit(#[trigger] d[k]),
            !overflow ==> acc == digits_value(d.take(i - start)) && acc <= u32::MAX,
            overflow ==> digits_value(d.take(i - start)) > u32::MAX,
        decreases chars@.len() - i,
    {
        let c = chars[i];
        let ghost k = i - start;
        assert(d[k] == c);
        if !('0' <= c && c <= '9') {
            assert(!is_digit(d[k]));
            return None;
        }
        assert(d.take(k + 1).drop_last() =~= d.take(k));
        assert(d.take(k + 1).last() == c);
        if !overflow {
            let digit = (c as u32 - 48) as u64;
            acc = acc * 10 + digit;
            if acc > 4294967295u64 {
                overflow = true;
            }
        }
        i = i + 1;
    }
    assert(d.take(d.len() as int) =~= d);
    if overflow {
        None
    } else {
        Some(acc as u32)
    }
}

/// Index of the first `.` at or after `i` (or `s.len()`).
pub open spec fn dot_from(s: Seq<char>, i: int) -> int
    decreases s.len() - i,
{
    if i < 0 || i >= s.len() {
        s.len() as int
    } else if s[i] == '.' {
        i
    } else {
        dot_from(s, i + 1)
    }
}

/// The text before the first `.`.
pub open spec fn field(s: Seq<char>) -> Seq<char> {
    s.take(dot_from(s, 0))
}

/// The text after the first `.`, if there is one.
pub open spec fn rest(s: Seq<char>) -> Option<Seq<char>> {
    if dot_from(s, 0) < s.len() {
        Some(s.skip(dot_from(s, 0) + 1))
    } else {
        None
    }
}

/// Number of leading ASCII digits of `s` from index `i`.
pub open spec fn digits_from(s: Seq<char>, i: int) -> int
    decreases s.len() - i,
{
    if i < 0 || i >= s.len() || !is_digit(s[i]) {
        i
    } else {
        digits_from(s, i + 1)
    }
}

/// The version text without surrounding whitespace and one leading `v` or `V`.
pub open spec fn version_body(s: Seq<char>) -> Seq<char> {
    let t = trim(s);
    if t.len() > 0 && (t[0] == 'v' || t[0] == 'V') {
        t.drop_first()
    } else {
        t
    }
}

/// `major.minor.patch`: the first two `.`-separated fields as numbers (each
/// trimmed), and the leading digits of the trimmed third field; any further
/// fields are ignored.
pub open spec fn parse_version_spec(s: Seq<char>) -> Option<(u32, u32, u32)> {
    let b = version_body(s);
    match rest(b) {
        None => None,
        Some(r1) => match rest(r1) {
            None => None,
            Some(r2) => {
                let p = trim(field(r2));
                match (
                    parse_u32_spec(trim(field(b))),
                    parse_u32_spec(trim(field(r1))),
                    parse_u32_spec(p.take(digits_from(p, 0))),
                ) {
                    (Some(a), Some(c), Some(d)) => Some((a, c, d)),
                    _ => None,
                }
            },
        },
    }
}

/// The first `.` at or after `from`.
fn find_dot(s: &Vec<char>, from: usize) -> (r: usize)
    requires
        from <= s@.len(),
    ensures
        r == dot_from(s@, from as int),
        from <= r <= s@.len(),
{
    let mut i = from;
    while i < s.len() && s[i] != '.'
        invariant
            from <= i <= s@.len(),
            dot_from(s@, from as int) == dot_from(s@, i as int),
        decreases s@.len() - i,
    {
        i = i + 1;
    }
    i
}

pub proof fn lemma_dot_from_shift(s: Seq<char>, from: int, i: int)
    requires
        0 <= from <= i <= s.len(),
        forall|k: int| from <= k < i ==> s[k] != '.',
    ensures
        dot_from(s, from) == dot_from(s, i),
    decreases i - from,
{
    if from < i {
        lemma_dot_from_shift(s, from + 1, i);
    }
}

pub proof fn lemma_dot_from_skip(s: Seq<char>, from: int, i: int)
    requires
        0 <= from <= i <= s.len(),
    ensures
        dot_from(s.skip(from), i - from) == dot_from(s, i) - from,
    decreases s.len() - i,
{
    if i < s.len() && s[i] != '.' {
        lemma_dot_from_skip(s, from, i + 1);
    }
}

/// Trimmed text of `s[a..b]`.
fn trimmed_part(s: &Vec<char>, a: usize, b: usize) -> (r: Vec<char>)
    requires
        a <= b <= s@.len(),
    ensures
        r@ == trim(s@.subrange(a as int, b as int)),
{
    let part = slice_chars(s, a, b);
    let (x, y) = trim_bounds(&part);
    if x >= part.len() {
        Vec::new()
    } else {
        slice_chars(&part, x, y)
    }
}

fn parse_chars(v: &Vec<char>) -> (r: Option<u32>)
    ensures
        r == parse_u32_spec(v@),
{
    let s = string_from_chars(v.as_slice());
    parse_u32(s.as_str())
}

/// Parse a version string like "v1.2.3" or "1.2.3" into `(major, minor, patch)`.
///
/// A leading `v`/`V` is ignored, and any pre-release/build suffix on the patch
/// component (e.g. "3-beta.1" or "3+build") is stripped.
pub fn parse_version(s: &str) -> (r: Option<(u32, u32, u32)>)
    ensures
        r == parse_version_spec(s@),
{
    let all = chars_of(s);
    let (ta, tb) = trim_bounds(&all);
    let t = if ta >= all.len() {
        Vec::new()
    } else {
        slice_chars(&all, ta, tb)
    };
    assert(t@ == trim(s@));
    let start: usize = if t.len() > 0 && (t[0] == 'v' || t[0] == 'V') {
        1
    } else {
        0
    };
    let b = slice_chars(&t, start, t.len());
    assert(b@ == version_body(s@)) by {
        if start == 1 {
            assert(t@.subrange(1, t@.len() as int) =~= t@.drop_first());
        } else {
            assert(t@.subrange(0, t@.len() as int) =~= t@);
        }
    }
    let d1 = find_dot(&b, 0);
    if d1 >= b.len() {
        return None;
    }
    let d2 = find_dot(&b, d1 + 1);
    proof {
        lemma_dot_from_skip(b@, d1 + 1, d1 + 1);
        assert(rest(b@) == Some(b@.skip(d1 + 1)));
    }
    if d2 >= b.len() {
        return None;
    }
    let d3 = find_dot(&b, d2 + 1);
    let ghost r1 = b@.skip(d1 + 1);
    proof {
        assert(dot_from(r1, 0) == d2 - (d1 + 1));
        assert(r1.skip(d2 - d1) =~= b@.skip(d2 + 1));
        lemma_dot_from_skip(b@, d2 + 1, d2 + 1);
        assert(rest(r1) == Some(b@.skip(d2 + 1)));
        assert(field(b@) =~= b@.subrange(0, d1 as int));
        assert(field(r1) =~= b@.subrange(d1 + 1, d2 as int));
        assert(field(b@.skip(d2 + 1)) =~= b@.subrange(d2 + 1, d3 as int));
    }
    let major = match parse_chars(&trimmed_part(&b, 0, d1)) {
        Some(v) => v,
        None => return None,
    };
    let minor = match parse_chars(&trimmed_part(&b, d1 + 1, d2)) {
        Some(v) => v,
        None => return None,
    };
    let p = trimmed_part(&b, d2 + 1, d3);
    let mut k: usize = 0;
    while k < p.len() && '0' <= p[k] && p[k] <= '9'
        invariant
            0 <= k <= p@.len(),
            digits_from(p@, 0) == digits_from(p@, k as int),
        decreases p@.len() - k,
    {
        k = k + 1;
    }
    let digits = slice_chars(&p, 0, k);
    assert(digits@ =~= p@.take(k as int));
    let patch = match parse_chars(&digits) {
        Some(v) => v,
        None => return None,
    };
    Some((major, minor, patch))
}

/// `latest` is strictly newer than `current`, comparing `(major, minor, patch)`
/// lexicographically.
pub open spec fn newer(latest: (u32, u32, u32), current: (u32, u32, u32)) -> bool {
    ||| latest.0 > current.0
    ||| latest.0 == current.0 && latest.1 > current.1
    ||| latest.0 == current.0 && latest.1 == current.1 && latest.2 > current.2
}

/// Returns true if `latest` is strictly newer than `current`.
pub fn is_newer(latest: (u32, u32, u32), current: (u32, u32, u32)) -> (r: bool)
    ensures
        r == newer(latest, current),
{
    if latest.0 != current.0 {
        latest.0 > current.0
    } else if latest.1 != current.1 {
        latest.1 > current.1
    } else {
        latest.2 > current.2
    }
}

/// Being newer is a strict total order on versions: never reflexive,
/// never both ways, transitive, and any two distinct versions are comparable.
pub proof fn lemma_newer_is_strict_total_order(a: (u32, u32, u32), b: (u32, u32, u32), c: (u32, u32, u32))
    ensures
        !newer(a, a),
        !(newer(a, b) && newer(b, a)),
        newer(a, b) && newer(b, c) ==> newer(a, c),
        a != b ==> newer(a, b) || newer(b, a),
{
}

/// The release's version text: trimmed, without any leading `v`/`V` characters.
pub open spec fn release_version_text(tag: Seq<char>) -> Seq<char> {
    let t = trim(tag);
    t.skip(vees_from(t, 0))
}

/// Index of the first character at or after `i` that is not `v` or `V`.
pub open spec fn vees_from(s: Seq<char>, i: int) -> int
    decreases s.len() - i,
{
    if i < 0 || i >= s.len() || !(s[i] == 'v' || s[i] == 'V') {
        i
    } else {
        vees_from(s, i + 1)
    }
}

/// The answer of an update check, given the latest release's tag and page URL
/// and the running version.
pub open spec fn update_decision(tag: Seq<char>, url: Seq<char>, current: Seq<char>) -> Result<
    Option<(Seq<char>, Seq<char>)>,
    Seq<char>,
> {
    match parse_version_spec(tag) {
        None => Err(tag),
        Some(latest) => match parse_version_spec(current) {
            None => Err(current),
            Some(cur) => if newer(latest, cur) {
                Ok(Some((release_version_text(tag), url)))
            } else {
                Ok(None)
            },
        },
    }
}

/// Decide whether the latest published release (`tag_name`, `html_url`) is
/// newer than the running version `current`.
pub fn update_from_release(tag_name: String, html_url: String, current: &str) -> (r: Result<
    Option<UpdateInfo>,
    UpdateError,
>)
    ensures
        match (r, update_decision(tag_name@, html_url@, current@)) {
            (Ok(None), Ok(None)) => true,
            (Ok(Some(info)), Ok(Some((v, u)))) => info.version@ == v && info.url@ == u,
            (Err(UpdateError::ParseVersion(s)), Err(t)) => s@ == t,
            _ => false,
        },
{
    let latest = match parse_version(tag_name.as_str()) {
        Some(v) => v,
        None => return Err(UpdateError::ParseVersion(tag_name)),
    };
    let cur = match parse_version(current) {
        Some(v) => v,
        None => return Err(UpdateError::ParseVersion(String::from_str(current))),
    };
    if is_newer(latest, cur) {
        let all = chars_of(tag_name.as_str());
        let (a, b) = trim_bounds(&all);
        let t = if a >= all.len() {
            Vec::new()
        } else {
            slice_chars(&all, a, b)
        };
        let mut k: usize = 0;
        while k < t.len() && (t[k] == 'v' || t[k] == 'V')
            invariant
                0 <= k <= t@.len(),
                vees_from(t@, 0) == vees_from(t@, k as int),
            decreases t@.len() - k,
        {
            k = k + 1;
        }
        let v = slice_chars(&t, k, t.len());
        assert(v@ =~= t@.skip(k as int));
        Ok(Some(UpdateInfo { version: string_from_chars(v.as_slice()), url: html_url }))
    } else {
        Ok(None)
    }
}

/// The GitHub repository to check for releases, in `owner/repo` form.
pub const GITHUB_REPO: &'static str = "philippgerard/filen-menubar";

/// The GitHub API address of the repository's latest published release.
pub open spec fn latest_release_url_spec() -> Seq<char> {
    "https://api.github.com/repos/"@ + GITHUB_REPO@ + "/releases/latest"@
}

/// The GitHub API address of the repository's latest published release.
pub fn latest_release_url() -> (r: String)
    ensures
        r@ == latest_release_url_spec(),
{
    let mut url = String::from_str("https://api.github.com/repos/");
    url.append(GITHUB_REPO);
    url.append("/releases/latest");
    url
}

/// Arguments of the `curl` request for `url`: fail on HTTP errors, quiet but
/// showing errors, following redirects, within 20 seconds, asking for the
/// GitHub JSON format with the User-Agent GitHub requires.
pub open spec fn request_args_spec(url: Seq<char>) -> Seq<Seq<char>> {
    seq![
        "-fsSL"@,
        "--max-time"@,
        "20"@,
        "-H"@,
        "Accept: application/vnd.github+json"@,
        "-H"@,
        "User-Agent: filen-menubar"@,
        url,
    ]
}

/// Arguments of the `curl` request for `url`.
pub fn release_request_args(url: &str) -> (r: Vec<String>)
    ensures
        strings_view(r@) == request_args_spec(url@),
{
    let mut r: Vec<String> = Vec::new();
    r.push(String::from_str("-fsSL"));
    r.push(String::from_str("--max-time"));
    r.push(String::from_str("20"));
    r.push(String::from_str("-H"));
    r.push(String::from_str("Accept: application/vnd.github+json"));
    r.push(String::from_str("-H"));
    r.push(String::from_str("User-Agent: filen-menubar"));
    r.push(String::from_str(url));
    assert(strings_view(r@) =~= request_args_spec(url@));
    r
}

/// The error for a failed request: curl's exit code and its error output,
/// decoded leniently and trimmed.
pub fn http_failure(code: Option<i32>, stderr: &[u8]) -> (r: UpdateError)
    ensures
        r matches UpdateError::Http { code: c, stderr: text } && c == code && text@ == trim(
            lossy_utf8(stderr@),
        ),
{
    let decoded = decode_lossy(stderr);
    let text = trim_str(decoded.as_str());
    UpdateError::Http { code, stderr: String::from_str(text) }
}

} // verus!
