//! Paths as text.

use crate::text;
use vstd::prelude::*;

verus! {

/// The path `rest` under `base`: an absolute path stands for itself.
pub open spec fn path_joined(base: Seq<char>, rest: Seq<char>) -> Seq<char> {
    if rest.len() > 0 && rest[0] == '/' {
        rest
    } else if base.len() == 0 || base.last() == '/' {
        base + rest
    } else {
        base + "/"@ + rest
    }
}

/// The path without separators and `.` components in front.
pub open spec fn path_trimmed_start(p: Seq<char>) -> Seq<char>
    decreases p.len(),
{
    if p.len() > 0 && p[0] == '/' {
        path_trimmed_start(p.drop_first())
    } else if p.len() > 0 && p[0] == '.' && (p.len() == 1 || p[1] == '/') {
        path_trimmed_start(p.drop_first())
    } else {
        p
    }
}

/// The path without separators and `.` components at its end.
pub open spec fn path_trimmed_end(p: Seq<char>) -> Seq<char>
    decreases p.len(),
{
    if p.len() > 0 && p.last() == '/' {
        path_trimmed_end(p.drop_last())
    } else if p.len() > 0 && p.last() == '.' && (p.len() == 1 || p[p.len() - 2] == '/') {
        path_trimmed_end(p.drop_last())
    } else {
        p
    }
}

/// What follows the component `~` that a path starts with.
pub open spec fn under_tilde(p: Seq<char>) -> Option<Seq<char>> {
    if p.len() > 0 && p[0] == '~' && (p.len() == 1 || p[1] == '/') {
        Some(path_trimmed_end(path_trimmed_start(p.drop_first())))
    } else {
        None
    }
}

/// A path with `~` in front replaced by the home directory, where there is one.
pub open spec fn tilde_expanded(p: Seq<char>, home: Option<Seq<char>>) -> Seq<char> {
    match (under_tilde(p), home) {
        (Some(rest), Some(home)) => path_joined(home, rest),
        _ => p,
    }
}

/// The path `rest` under `base`.
pub fn path_join(base: &str, rest: &str) -> (r: String)
    ensures
        r@ == path_joined(base@, rest@),
{
    let b = text::chars_of(base);
    let t = text::chars_of(rest);
    if t.len() > 0 && t[0] == '/' {
        let r = text::string_of(&t, 0, t.len());
        assert(r@ =~= rest@);
        r
    } else if b.len() == 0 || b[b.len() - 1] == '/' {
        text::cat2(base, rest)
    } else {
        text::cat3(base, "/", rest)
    }
}

/// What follows the component `~` that a path starts with.
fn strip_tilde(p: &str) -> (r: Option<String>)
    ensures
        r.deep_view() == under_tilde(p@),
{
    let v = text::chars_of(p);
    if !(v.len() > 0 && v[0] == '~' && (v.len() == 1 || v[1] == '/')) {
        return None;
    }
    let ghost whole = p@.drop_first();
    let mut from: usize = 1;
    proof {
        assert(p@.skip(1) =~= whole);
    }
    while from < v.len() && (v[from] == '/' || (v[from] == '.' && (from + 1 == v.len() || v[from
        + 1] == '/')))
        invariant
            v@ == p@,
            1 <= from <= v.len(),
            path_trimmed_start(whole) == path_trimmed_start(p@.skip(from as int)),
        decreases v.len() - from,
    {
        proof {
            let rest = p@.skip(from as int);
            assert(rest.drop_first() =~= p@.skip(from + 1));
            assert(rest[0] == p@[from as int]);
            if rest.len() > 1 {
                assert(rest[1] == p@[from + 1]);
            }
        }
        from += 1;
    }
    let ghost front = p@.skip(from as int);
    proof {
        if front.len() > 0 {
            assert(front[0] == p@[from as int]);
        }
        if front.len() > 1 {
            assert(front[1] == p@[from + 1]);
        }
        assert(path_trimmed_start(front) == front);
    }
    let mut to: usize = v.len();
    proof {
        assert(p@.subrange(from as int, to as int) =~= front);
    }
    while to > from && (v[to - 1] == '/' || (v[to - 1] == '.' && (to - 1 == from || v[to - 2]
        == '/')))
        invariant
            v@ == p@,
            1 <= from <= to <= v.len(),
            path_trimmed_end(front) == path_trimmed_end(p@.subrange(from as int, to as int)),
        decreases to,
    {
        proof {
            let part = p@.subrange(from as int, to as int);
            assert(part.drop_last() =~= p@.subrange(from as int, to - 1));
            assert(part.last() == p@[to - 1]);
            if part.len() > 1 {
                assert(part[part.len() - 2] == p@[to - 2]);
            }
        }
        to -= 1;
    }
    proof {
        let part = p@.subrange(from as int, to as int);
        if part.len() > 0 {
            assert(part.last() == p@[to - 1]);
        }
        if part.len() > 1 {
            assert(part[part.len() - 2] == p@[to - 2]);
        }
        assert(path_trimmed_end(part) == part);
    }
    Some(text::string_of(&v, from, to))
}

/// A path with `~` in front replaced by the home directory, where there is one.
pub fn expand_tilde(p: String, home: &Option<String>) -> (r: String)
    ensures
        r@ == tilde_expanded(p@, home.deep_view()),
{
    match (strip_tilde(p.as_str()), home) {
        (Some(rest), Some(home)) => path_join(home.as_str(), rest.as_str()),
        _ => p,
    }
}

/// A directory of the user, or the current one where it is not known, and the
/// path under it.
pub open spec fn under_base(base: Option<Seq<char>>, rest: Seq<char>) -> Seq<char> {
    path_joined(
        match base {
            Some(b) => b,
            None => "."@,
        },
        rest,
    )
}

/// A directory of the user, or the current one where it is not known, and the
/// path under it.
pub fn in_base(base: &Option<String>, rest: &str) -> (r: String)
    ensures
        r@ == under_base(base.deep_view(), rest@),
{
    match base {
        Some(b) => path_join(b.as_str(), rest),
        None => path_join(".", rest),
    }
}

} // verus!
