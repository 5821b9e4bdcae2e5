//! Network error detection.
//!
//! When a network error is detected, the app shows an "Offline" status and
//! retries automatically once connectivity returns.

use vstd::prelude::*;

verus! {

/// `str::to_lowercase`: the full Unicode lowercase mapping of the text.
pub uninterp spec fn lowercase(s: Seq<char>) -> Seq<char>;

/// Every character of `s` is an ASCII lowercase letter.
pub open spec fn is_ascii_lowercase_word(s: Seq<char>) -> bool {
    forall|i: int| 0 <= i < s.len() ==> 'a' <= #[trigger] s[i] <= 'z'
}

/// Lowercases `s` with `str::to_lowercase`. Claimed: the result is the named
/// Unicode lowercase mapping of the input text, and text made of ASCII
/// lowercase letters (which are their own lowercase) comes back unchanged;
/// nothing else is stated.
#[verifier::external_body]
pub fn to_lowercase(s: &str) -> (r: String)
    ensures
        r@ == lowercase(s@),
        is_ascii_lowercase_word(s@) ==> r@ == s@,
{
    s.to_lowercase()
}

/// Patterns (already lowercase) that indicate network connectivity issues.
pub open spec fn network_patterns() -> Seq<Seq<char>> {
    seq![
        "enotfound"@,
        "econnrefused"@,
        "econnreset"@,
        "etimedout"@,
        "ehostunreach"@,
        "enetunreach"@,
        "network"@,
        "offline"@,
        "internet"@,
        "dns"@,
        "socket hang up"@,
        "connection refused"@,
        "connection reset"@,
        "connect etimedout"@,
        "websocket"@,
        "socket.filen.io"@,
        "err_unhandled_error"@,
        "fetch failed"@,
        "getaddrinfo"@,
    ]
}

/// `needle` occurs in `hay` as a contiguous infix.
pub open spec fn contains_infix(hay: Seq<char>, needle: Seq<char>) -> bool {
    exists|i: int| 0 <= i <= hay.len() - needle.len() && #[trigger] hay.subrange(i, i + needle.len()) == needle
}

/// Some network pattern occurs in `lower`.
pub open spec fn mentions_network(lower: Seq<char>) -> bool {
    exists|k: int| 0 <= k < network_patterns().len() && contains_infix(lower, #[trigger] network_patterns()[k])
}

/// Whether `needle` occurs in `hay`.
pub fn contains_chars(h: &Vec<char>, n: &Vec<char>) -> (r: bool)
    ensures
        r == contains_infix(h@, n@),
{
    let ghost hay = h@;
    let ghost needle = n@;
    if n.len() > h.len() {
        proof {
            assert forall|i: int| 0 <= i <= hay.len() - needle.len() implies #[trigger] hay.subrange(i, i + needle.len()) != needle by {}
        }
        return false;
    }
    if n.len() == 0 {
        assert(hay.subrange(0, 0 + needle.len() as int) =~= needle);
        return true;
    }
    let last = h.len() - n.len();
    let mut i: usize = 0;
    while i <= last
        invariant
            h@ == hay,
            n@ == needle,
            last == h@.len() - n@.len(),
            0 < n@.len() <= h@.len(),
            h@.len() <= usize::MAX,
            0 <= i <= last + 1,
            forall|j: int| 0 <= j < i ==> #[trigger] hay.subrange(j, j + needle.len()) != needle,
        decreases last + 1 - i,
    {
        let mut k: usize = 0;
        let mut same = true;
        while k < n.len()
            invariant
                h@ == hay,
                n@ == needle,
                i <= last,
                last == h@.len() - n@.len(),
                0 <= k <= n@.len(),
                0 < n@.len() <= h@.len(),
                h@.len() <= usize::MAX,
                same == (forall|t: int| 0 <= t < k ==> h@[i + t] == n@[t]),
            decreases n@.len() - k,
        {
            if h[i + k] != n[k] {
                same = false;
            }
            k = k + 1;
        }
        if same {
            assert(hay.subrange(i as int, i + needle.len()) =~= needle);
            return true;
        }
        proof {
            let t = choose|t: int| 0 <= t < n@.len() && h@[i + t] != n@[t];
            assert(hay.subrange(i as int, i + needle.len())[t] != needle[t]);
        }
        i = i + 1;
    }
    false
}

/// `str::contains` for a string pattern.
pub fn contains_str(hay: &str, needle: &str) -> (r: bool)
    ensures
        r == contains_infix(hay@, needle@),
{
    let h = crate::text::chars_of(hay);
    let n = crate::text::chars_of(needle);
    contains_chars(&h, &n)
}

/// Whether already-lowercased text mentions a network connectivity problem.
pub fn mentions_network_error(lower: &str) -> (r: bool)
    ensures
        r == mentions_network(lower@),
{
    let patterns: [&str; 19] = [
        "enotfound",
        "econnrefused",
        "econnreset",
        "etimedout",
        "ehostunreach",
        "enetunreach",
        "network",
        "offline",
        "internet",
        "dns",
        "socket hang up",
        "connection refused",
        "connection reset",
        "connect etimedout",
        "websocket",
        "socket.filen.io",
        "err_unhandled_error",
        "fetch failed",
        "getaddrinfo",
    ];
    proof {
        reveal_strlit("enotfound");
        reveal_strlit("econnrefused");
        reveal_strlit("econnreset");
        reveal_strlit("etimedout");
        reveal_strlit("ehostunreach");
        reveal_strlit("enetunreach");
        reveal_strlit("network");
        reveal_strlit("offline");
        reveal_strlit("internet");
        reveal_strlit("dns");
        reveal_strlit("socket hang up");
        reveal_strlit("connection refused");
        reveal_strlit("connection reset");
        reveal_strlit("connect etimedout");
        reveal_strlit("websocket");
        reveal_strlit("socket.filen.io");
        reveal_strlit("err_unhandled_error");
        reveal_strlit("fetch failed");
        reveal_strlit("getaddrinfo");
        assert(patterns@.map_values(|p: &str| p@) =~= network_patterns());
    }
    let mut k: usize = 0;
    while k < 19
        invariant
            0 <= k <= 19,
            patterns@.len() == 19,
            patterns@.map_values(|p: &str| p@) == network_patterns(),
            forall|j: int| 0 <= j < k ==> !contains_infix(lower@, #[trigger] network_patterns()[j]),
        decreases 19 - k,
    {
        assert(patterns@[k as int]@ == network_patterns()[k as int]);
        if contains_str(lower, patterns[k]) {
            return true;
        }
        k = k + 1;
    }
    false
}

/// Whether an error message indicates a network connectivity issue:
/// a case-insensitive match against common Node.js and Filen CLI errors.
pub fn is_network_error(msg: &str) -> (r: bool)
    ensures
        r == mentions_network(lowercase(msg@)),
{
    let lower = to_lowercase(msg);
    mentions_network_error(lower.as_str())
}


/// Law: text mentions a network problem exactly when, already lowercased,
/// it contains one of the patterns of Node.js and Filen CLI connectivity
/// errors: `enotfound`, `econnrefused`, `econnreset`, `etimedout`,
/// `ehostunreach`, `enetunreach`, `network`, `offline`, `internet`, `dns`,
/// `socket hang up`, `connection refused`, `connection reset`,
/// `connect etimedout`, `websocket`, `socket.filen.io`,
/// `err_unhandled_error`, `fetch failed` or `getaddrinfo`. So
/// `is_network_error(msg)` holds exactly when `msg`'s lowercase form does.
pub proof fn lemma_network_error_patterns(lower: Seq<char>)
    ensures
        mentions_network(lower) == (contains_infix(lower, "enotfound"@)
            || contains_infix(lower, "econnrefused"@)
            || contains_infix(lower, "econnreset"@)
            || contains_infix(lower, "etimedout"@)
            || contains_infix(lower, "ehostunreach"@)
            || contains_infix(lower, "enetunreach"@)
            || contains_infix(lower, "network"@)
            || contains_infix(lower, "offline"@)
            || contains_infix(lower, "internet"@)
            || contains_infix(lower, "dns"@)
            || contains_infix(lower, "socket hang up"@)
            || contains_infix(lower, "connection refused"@)
            || contains_infix(lower, "connection reset"@)
            || contains_infix(lower, "connect etimedout"@)
            || contains_infix(lower, "websocket"@)
            || contains_infix(lower, "socket.filen.io"@)
            || contains_infix(lower, "err_unhandled_error"@)
            || contains_infix(lower, "fetch failed"@)
            || contains_infix(lower, "getaddrinfo"@)),
{
    let ps = network_patterns();
    assert(ps[0] == "enotfound"@);
        assert(ps[1] == "econnrefused"@);
        assert(ps[2] == "econnreset"@);
        assert(ps[3] == "etimedout"@);
        assert(ps[4] == "ehostunreach"@);
        assert(ps[5] == "enetunreach"@);
        assert(ps[6] == "network"@);
        assert(ps[7] == "offline"@);
        assert(ps[8] == "internet"@);
        assert(ps[9] == "dns"@);
        assert(ps[10] == "socket hang up"@);
        assert(ps[11] == "connection refused"@);
        assert(ps[12] == "connection reset"@);
        assert(ps[13] == "connect etimedout"@);
        assert(ps[14] == "websocket"@);
        assert(ps[15] == "socket.filen.io"@);
        assert(ps[16] == "err_unhandled_error"@);
        assert(ps[17] == "fetch failed"@);
        assert(ps[18] == "getaddrinfo"@);
    if mentions_network(lower) {
        let k = choose|k: int| 0 <= k < ps.len() && contains_infix(lower, #[trigger] ps[k]);
        assert(0 <= k < 19);
    }
    assert forall|k: int| 0 <= k < 19 && contains_infix(lower, ps[k]) implies mentions_network(lower) by {
        assert(contains_infix(lower, network_patterns()[k]));
    }
}

} // verus!
