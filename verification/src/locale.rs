//! Choice of the interface language.

use crate::cli::events::opt_text;
use vstd::prelude::*;

verus! {

/// The part of `s` before its first `c` (all of `s` when there is none).
pub open spec fn before_char(s: Seq<char>, c: char) -> Seq<char>
    decreases s.len(),
{
    if s.len() == 0 {
        s
    } else if s[0] == c {
        Seq::empty()
    } else {
        seq![s[0]] + before_char(s.drop_first(), c)
    }
}

/// The language to use: the configured one, else the language part of the
/// system locale ("de-DE" gives "de"), else English.
pub open spec fn locale_choice(configured: Option<Seq<char>>, system: Option<Seq<char>>) -> Seq<
    char,
> {
    match configured {
        Some(l) => l,
        None => match system {
            Some(s) => before_char(s, '-'),
            None => "en"@,
        },
    }
}

/// Choose the interface language from the configured override and the
/// system locale.
pub fn choose_locale(configured: &Option<String>, system: &Option<String>) -> (r: String)
    ensures
        r@ == locale_choice(opt_text(*configured), opt_text(*system)),
{
    match configured {
        Some(l) => l.clone(),
        None => match system {
            Some(s) => language_part(s.as_str()),
            None => String::from_str("en"),
        },
    }
}

/// The part of a locale tag before its first '-'.
fn language_part(tag: &str) -> (r: String)
    ensures
        r@ == before_char(tag@, '-'),
{
    let chars = crate::text::chars_of(tag);
    let mut i: usize = 0;
    while i < chars.len() && chars[i] != '-'
        invariant
            i <= chars@.len(),
            chars@ == tag@,
            forall|k: int| 0 <= k < i ==> chars@[k] != '-',
        decreases chars.len() - i,
    {
        i = i + 1;
    }
    proof {
        lemma_before_char(chars@, '-', i as int);
    }
    crate::text::string_from_chars(crate::text::slice_chars(&chars, 0, i).as_slice())
}

proof fn lemma_before_char(s: Seq<char>, c: char, i: int)
    requires
        0 <= i <= s.len(),
        forall|k: int| 0 <= k < i ==> s[k] != c,
        i == s.len() || s[i] == c,
    ensures
        before_char(s, c) == s.subrange(0, i),
    decreases s.len(),
{
    if s.len() > 0 && s[0] != c {
        lemma_before_char(s.drop_first(), c, i - 1);
        assert(s.subrange(0, i) =~= seq![s[0]] + s.drop_first().subrange(0, i - 1));
    } else if s.len() > 0 {
        assert(s.subrange(0, i) =~= Seq::<char>::empty());
    } else {
        assert(s.subrange(0, i) =~= s);
    }
}

/// The system locale (`sys_locale::get_locale`), such as "en-US". It depends
/// on the machine, so nothing is promised of it.
#[verifier::external_body]
pub fn system_locale() -> (r: Option<String>) {
    sys_locale::get_locale()
}

/// The language to use given the configured override: the override when
/// there is one, else the language part of the system locale ("de-DE" gives
/// "de"), else English. Returns the language and the system locale it was
/// chosen against.
pub fn resolve_locale(configured: &Option<String>) -> (r: (String, Option<String>))
    ensures
        r.0@ == locale_choice(opt_text(*configured), opt_text(r.1)),
        configured matches Some(l) ==> r.0@ == l@,
{
    let system = system_locale();
    let language = choose_locale(configured, &system);
    (language, system)
}

} // verus!
