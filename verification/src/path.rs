//! File paths as text, for a host where `/` separates components.

use crate::text::{chars_of, is_text, split, split_at_char, string_of, views};
use vstd::prelude::*;

verus! {

/// `base` extended by `rel`: an absolute `rel` replaces `base`; otherwise the
/// two are joined by one `/`, unless `base` is empty or ends in `/` already.
pub open spec fn joined(base: Seq<char>, rel: Seq<char>) -> Seq<char> {
    if rel.len() > 0 && rel[0] == '/' {
        rel
    } else if base.len() == 0 {
        rel
    } else if base.last() == '/' {
        base + rel
    } else {
        base + seq!['/'] + rel
    }
}

/// Joins two paths.
pub fn join(base: &str, rel: &str) -> (out: String)
    ensures
        out@ == joined(base@, rel@),
{
    let b = chars_of(base);
    let r = chars_of(rel);
    if r.len() > 0 && r[0] == '/' {
        return rel.to_owned();
    }
    if b.len() == 0 {
        return rel.to_owned();
    }
    let mut out = base.to_owned();
    if b[b.len() - 1] != '/' {
        proof {
            reveal_strlit("/");
            assert("/"@ =~= seq!['/']);
        }
        out.append("/");
    }
    out.append(rel);
    out
}

/// Whether a path component names something: it is neither empty, nor `.`.
pub open spec fn is_named(c: Seq<char>) -> bool {
    c.len() > 0 && c != seq!['.']
}

/// The last component among the first `n` that names something, if any.
pub open spec fn last_named(parts: Seq<Seq<char>>, n: int) -> Option<Seq<char>>
    decreases n,
{
    if n <= 0 {
        None
    } else if is_named(parts[n - 1]) {
        Some(parts[n - 1])
    } else {
        last_named(parts, n - 1)
    }
}

/// The final component of a path: what stands after the last `/`, trailing
/// separators and `.` components set aside. A path that ends in `..`, or
/// that names nothing, has none.
pub open spec fn file_name_of(path: Seq<char>) -> Option<Seq<char>> {
    let parts = split(path, '/');
    match last_named(parts, parts.len() as int) {
        Some(c) => if c == seq!['.', '.'] {
            None
        } else {
            Some(c)
        },
        None => None,
    }
}

/// The final component of `path`, or the empty string.
pub fn file_name(path: &str) -> (out: String)
    ensures
        out@ == match file_name_of(path@) {
            Some(c) => c,
            None => Seq::<char>::empty(),
        },
{
    let v = chars_of(path);
    let parts = split_at_char(&v, '/');
    let mut n: usize = parts.len();
    proof {
        reveal_strlit(".");
        reveal_strlit("..");
        assert("."@ =~= seq!['.']);
        assert(".."@ =~= seq!['.', '.']);
    }
    while n > 0
        invariant
            n <= parts.len(),
            views(parts@) == split(path@, '/'),
            "."@ == seq!['.'],
            ".."@ == seq!['.', '.'],
            last_named(views(parts@), n as int) == last_named(views(parts@), parts.len() as int),
        decreases n,
    {
        let c = &parts[n - 1];
        assert(views(parts@)[n - 1] == c@);
        if c.len() > 0 && !is_text(c, ".") {
            if is_text(c, "..") {
                return String::new();
            }
            return string_of(c);
        }
        n -= 1;
    }
    String::new()
}

} // verus!
