//! Paths as text: joining path segments, and the platform directories that
//! the `dirs` crate reports.

use crate::text::chars_of;
use vstd::prelude::*;

verus! {

/// `Path::join` on Unix path text: an absolute segment replaces the base,
/// an empty base yields the segment, and a separator is inserted unless the
/// base already ends with one.
pub open spec fn join_spec(base: Seq<char>, seg: Seq<char>) -> Seq<char> {
    if seg.len() > 0 && seg[0] == '/' {
        seg
    } else if base.len() == 0 {
        seg
    } else if base.last() == '/' {
        base + seg
    } else {
        base + "/"@ + seg
    }
}

/// Join a path segment to a base path.
pub fn join_path(base: &str, seg: &str) -> (r: String)
    ensures
        r@ == join_spec(base@, seg@),
{
    proof {
        reveal_strlit("/");
    }
    let s = chars_of(seg);
    let b = chars_of(base);
    if s.len() > 0 && s[0] == '/' {
        return String::from_str(seg);
    }
    if b.len() == 0 {
        return String::from_str(seg);
    }
    let mut out = String::from_str(base);
    if b[b.len() - 1] != '/' {
        out.append("/");
    }
    out.append(seg);
    out
}

/// The user's home directory (`dirs::home_dir`), as text. Nothing is claimed
/// about it: it depends on the environment.
#[verifier::external_body]
pub fn home_dir_text() -> (r: Option<String>) {
    dirs::home_dir().map(|p| p.to_string_lossy().into_owned())
}

/// The platform configuration directory (`dirs::config_dir`), as text.
/// Nothing is claimed about it: it depends on the environment.
#[verifier::external_body]
pub fn config_dir_text() -> (r: Option<String>) {
    dirs::config_dir().map(|p| p.to_string_lossy().into_owned())
}

/// The platform local data directory (`dirs::data_local_dir`), as text.
/// Nothing is claimed about it: it depends on the environment.
#[verifier::external_body]
pub fn data_local_dir_text() -> (r: Option<String>) {
    dirs::data_local_dir().map(|p| p.to_string_lossy().into_owned())
}

/// Whether something exists at `path` (`Path::exists`). Nothing is claimed:
/// it depends on the file system.
#[verifier::external_body]
pub fn path_exists(path: &str) -> (r: bool) {
    std::path::Path::new(path).exists()
}

} // verus!
