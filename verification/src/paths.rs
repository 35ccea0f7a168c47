//! A plain model of filesystem paths.
//!
//! The pipeline only ever handles canonicalized absolute paths (resolved
//! before they are compared, moved, or passed to a child process), so a
//! path is modelled as a string of `/`-separated components. The empty
//! string stands for the filesystem root: joining a component to it yields
//! an absolute path again, and the parent of a top-level entry is the root.

use vstd::prelude::*;
use vstd::string::StrSliceExecFns;
use vstd::string::StringExecFns;

verus! {

/// The path obtained by appending one component to a base path.
pub open spec fn join_spec(base: Seq<char>, component: Seq<char>) -> Seq<char> {
    base + seq!['/'] + component
}

/// The index of the last separator in `s`, or `-1` if there is none.
pub open spec fn last_sep(s: Seq<char>) -> int
    decreases s.len(),
{
    if s.len() == 0 {
        -1
    } else if s[s.len() - 1] == '/' {
        s.len() - 1
    } else {
        last_sep(s.drop_last())
    }
}

/// The parent of a path: everything before the last separator, or nothing
/// for a degenerate path without one.
pub open spec fn parent_spec(s: Seq<char>) -> Option<Seq<char>> {
    if last_sep(s) >= 0 {
        Some(s.subrange(0, last_sep(s)))
    } else {
        None
    }
}

/// The final component of a path: everything after the last separator
/// (the whole path when it has no separator).
pub open spec fn file_name_spec(s: Seq<char>) -> Seq<char> {
    s.subrange(last_sep(s) + 1, s.len() as int)
}

pub proof fn lemma_last_sep_bounds(s: Seq<char>)
    ensures
        -1 <= last_sep(s) < s.len(),
        last_sep(s) >= 0 ==> s[last_sep(s)] == '/',
        forall|j: int| last_sep(s) < j < s.len() ==> s[j] != '/',
    decreases s.len(),
{
    if s.len() == 0 {
    } else if s[s.len() - 1] == '/' {
    } else {
        lemma_last_sep_bounds(s.drop_last());
        assert forall|j: int| last_sep(s) < j < s.len() implies s[j] != '/' by {
            if j < s.len() - 1 {
                assert(s.drop_last()[j] == s[j]);
            }
        }
    }
}

proof fn lemma_last_sep_at(s: Seq<char>, i: int)
    requires
        0 <= i < s.len(),
        s[i] == '/',
        forall|j: int| i < j < s.len() ==> s[j] != '/',
    ensures
        last_sep(s) == i,
    decreases s.len(),
{
    if i < s.len() - 1 {
        assert forall|j: int| i < j < s.drop_last().len() implies s.drop_last()[j] != '/' by {
            assert(s.drop_last()[j] == s[j]);
        }
        assert(s.drop_last()[i] == s[i]);
        lemma_last_sep_at(s.drop_last(), i);
    }
}

proof fn lemma_last_sep_none(s: Seq<char>)
    requires
        forall|j: int| 0 <= j < s.len() ==> s[j] != '/',
    ensures
        last_sep(s) == -1,
    decreases s.len(),
{
    if s.len() > 0 {
        assert forall|j: int| 0 <= j < s.drop_last().len() implies s.drop_last()[j] != '/' by {
            assert(s.drop_last()[j] == s[j]);
        }
        lemma_last_sep_none(s.drop_last());
    }
}

/// Append one component to a base path.
pub fn path_join(base: &str, component: &str) -> (r: String)
    ensures
        r@ == join_spec(base@, component@),
{
    let mut r = String::from_str(base);
    r.append("/");
    r.append(component);
    proof {
        reveal_strlit("/");
        assert(r@ =~= join_spec(base@, component@));
    }
    r
}

/// The index of the last separator, if the path contains one.
fn last_sep_index(s: &str) -> (r: Option<usize>)
    ensures
        match r {
            Some(i) => last_sep(s@) == i as int,
            None => last_sep(s@) == -1,
        },
{
    let n = s.unicode_len();
    let mut i = n;
    while i > 0
        invariant
            i <= n,
            n == s@.len(),
            forall|j: int| i <= j < n ==> s@[j] != '/',
        decreases i,
    {
        i = i - 1;
        let c = s.get_char(i);
        if c == '/' {
            proof {
                lemma_last_sep_at(s@, i as int);
            }
            return Some(i);
        }
    }
    proof {
        lemma_last_sep_none(s@);
    }
    None
}

/// The parent of a path, or nothing for a degenerate path without one.
pub fn path_parent(p: &str) -> (r: Option<String>)
    ensures
        match r {
            Some(parent) => parent_spec(p@) == Some(parent@),
            None => parent_spec(p@) is None,
        },
{
    match last_sep_index(p) {
        Some(i) => {
            proof {
                lemma_last_sep_bounds(p@);
            }
            Some(String::from_str(p.substring_char(0, i)))
        },
        None => None,
    }
}

/// The final component of a path, or nothing when that component is empty.
pub fn path_file_name(p: &str) -> (r: Option<String>)
    ensures
        match r {
            Some(name) => name@ == file_name_spec(p@) && name@.len() > 0,
            None => file_name_spec(p@).len() == 0,
        },
{
    proof {
        lemma_last_sep_bounds(p@);
    }
    let n = p.unicode_len();
    let start: usize = match last_sep_index(p) {
        Some(i) => i + 1,
        None => 0,
    };
    if start == n {
        None
    } else {
        Some(String::from_str(p.substring_char(start, n)))
    }
}

} // verus!
