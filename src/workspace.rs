//! Paths relative to a workspace root: normalization, and the checks that
//! keep a requested path inside the workspace.

use vstd::prelude::*;
use crate::launch::{join_with, joined_with};
use crate::text::matches_at;

verus! {

pub open spec fn is_separator(c: char) -> bool {
    c == '/' || c == '\\'
}

/// The segments kept so far, after the segment `seg` is read: empty and
/// `.` segments are dropped, `..` drops the last kept segment.
pub open spec fn with_segment(kept: Seq<Seq<char>>, seg: Seq<char>) -> Seq<Seq<char>> {
    if seg.len() == 0 || seg == seq!['.'] {
        kept
    } else if seg == seq!['.', '.'] {
        if kept.len() > 0 {
            kept.drop_last()
        } else {
            kept
        }
    } else {
        kept.push(seg)
    }
}

/// Reading `s` with segments `kept` and the segment `cur` in progress.
pub open spec fn segments_of(kept: Seq<Seq<char>>, cur: Seq<char>, s: Seq<char>) -> Seq<Seq<char>>
    decreases s.len(),
{
    if s.len() == 0 {
        with_segment(kept, cur)
    } else if is_separator(s[0]) {
        segments_of(with_segment(kept, cur), Seq::empty(), s.drop_first())
    } else {
        segments_of(kept, cur.push(s[0]), s.drop_first())
    }
}

/// `rel` as a plain relative path: its segments, with `.`, `..`, empty
/// segments and any root removed, joined by `/`.
pub open spec fn normalized_rel(rel: Seq<char>) -> Seq<char> {
    joined_with(segments_of(Seq::empty(), Seq::empty(), rel), "/"@)
}

/// A segment a normalized path can hold: not empty, not `.` or `..`, and
/// without separators.
pub open spec fn plain_segment(seg: Seq<char>) -> bool {
    seg.len() > 0 && seg != seq!['.'] && seg != seq!['.', '.'] && forall|k: int|
        0 <= k < seg.len() ==> !is_separator(#[trigger] seg[k])
}

pub open spec fn all_plain(segs: Seq<Seq<char>>) -> bool {
    forall|i: int| 0 <= i < segs.len() ==> plain_segment(#[trigger] segs[i])
}

proof fn lemma_segments_plain(kept: Seq<Seq<char>>, cur: Seq<char>, s: Seq<char>)
    requires
        all_plain(kept),
        forall|k: int| 0 <= k < cur.len() ==> !is_separator(#[trigger] cur[k]),
    ensures
        all_plain(segments_of(kept, cur, s)),
    decreases s.len(),
{
    let next = with_segment(kept, cur);
    assert(all_plain(next)) by {
        if !(cur.len() == 0 || cur == seq!['.']) && cur != seq!['.', '.'] {
            assert forall|i: int| 0 <= i < next.len() implies plain_segment(#[trigger] next[i]) by {
                if i < kept.len() {
                    assert(next[i] == kept[i]);
                }
            }
        } else if cur == seq!['.', '.'] && kept.len() > 0 {
            assert forall|i: int| 0 <= i < next.len() implies plain_segment(#[trigger] next[i]) by {
                assert(next[i] == kept[i]);
            }
        }
    }
    if s.len() > 0 {
        if is_separator(s[0]) {
            lemma_segments_plain(next, Seq::empty(), s.drop_first());
        } else {
            let c2 = cur.push(s[0]);
            assert forall|k: int| 0 <= k < c2.len() implies !is_separator(#[trigger] c2[k]) by {
                if k < cur.len() {
                    assert(c2[k] == cur[k]);
                }
            }
            lemma_segments_plain(kept, c2, s.drop_first());
        }
    }
}

/// A normalized path is made of plain segments only: it has no `..` step,
/// no `.` step and no root, so joined to a directory it stays inside it.
pub proof fn lemma_normalized_segments_are_plain(rel: Seq<char>)
    ensures
        all_plain(segments_of(Seq::empty(), Seq::empty(), rel)),
{
    lemma_segments_plain(Seq::empty(), Seq::empty(), rel);
}

fn is_separator_char(c: char) -> (r: bool)
    ensures
        r == is_separator(c),
{
    c == '/' || c == '\\'
}

fn add_segment(kept: &mut Vec<String>, seg: String)
    ensures
        final(kept).deep_view() == with_segment(old(kept).deep_view(), seg@),
{
    proof {
        reveal_strlit(".");
        reveal_strlit("..");
    }
    let n = seg.as_str().unicode_len();
    let is_dot = n == 1 && matches_at(seg.as_str(), 0, ".");
    let is_dot_dot = n == 2 && matches_at(seg.as_str(), 0, "..");
    proof {
        if n == 1 {
            assert(seg@.subrange(0, 1) =~= seg@);
        }
        if n == 2 {
            assert(seg@.subrange(0, 2) =~= seg@);
        }
        assert("."@ =~= seq!['.']);
        assert(".."@ =~= seq!['.', '.']);
    }
    if n == 0 || is_dot {
        return;
    }
    if is_dot_dot {
        if kept.len() > 0 {
            let ghost before = kept.deep_view();
            kept.pop();
            assert(kept.deep_view() =~= before.drop_last());
        }
        return;
    }
    let ghost before = kept.deep_view();
    kept.push(seg);
    assert(kept.deep_view() =~= before.push(seg@));
}

/// Normalizes a relative path: `.` and empty segments go, `..` removes the
/// segment before it, a leading root is dropped; `/` and `\` both separate.
pub fn normalize_rel(rel: &str) -> (r: String)
    ensures
        r@ == normalized_rel(rel@),
{
    let n = rel.unicode_len();
    let mut kept: Vec<String> = Vec::new();
    let mut start: usize = 0;
    let mut i: usize = 0;
    assert(rel@.subrange(0, n as int) =~= rel@);
    assert(rel@.subrange(0, 0) =~= Seq::<char>::empty());
    assert(kept.deep_view() =~= Seq::<Seq<char>>::empty());
    while i < n
        invariant
            n == rel@.len(),
            start <= i <= n,
            segments_of(kept.deep_view(), rel@.subrange(start as int, i as int), rel@.subrange(
                i as int,
                n as int,
            )) == segments_of(Seq::empty(), Seq::empty(), rel@),
        decreases n - i,
    {
        let ghost cur = rel@.subrange(start as int, i as int);
        let ghost rest = rel@.subrange(i as int, n as int);
        assert(rest[0] == rel@[i as int]);
        assert(rest.drop_first() =~= rel@.subrange(i + 1, n as int));
        if is_separator_char(rel.get_char(i)) {
            let seg = String::from_str(rel.substring_char(start, i));
            add_segment(&mut kept, seg);
            start = i + 1;
            assert(rel@.subrange(start as int, start as int) =~= Seq::<char>::empty());
        } else {
            assert(cur.push(rel@[i as int]) =~= rel@.subrange(start as int, i + 1));
        }
        i = i + 1;
    }
    let seg = String::from_str(rel.substring_char(start, n));
    add_segment(&mut kept, seg);
    join_with(&kept, "/")
}

/// Whether `s` contains `..` anywhere.
pub open spec fn has_dot_dot(s: Seq<char>) -> bool {
    exists|i: int| 0 <= i && i + 2 <= s.len() && #[trigger] s.subrange(i, i + 2) == seq!['.', '.']
}

fn contains_dot_dot(s: &str) -> (r: bool)
    ensures
        r == has_dot_dot(s@),
{
    proof {
        reveal_strlit("..");
    }
    assert(".."@ =~= seq!['.', '.']);
    let n = s.unicode_len();
    let mut i: usize = 0;
    if n < 2 {
        return false;
    }
    while i <= n - 2
        invariant
            n == s@.len(),
            n >= 2,
            ".."@ == seq!['.', '.'],
            forall|j: int| 0 <= j < i && j + 2 <= n ==> #[trigger] s@.subrange(j, j + 2) != seq![
                '.',
                '.',
            ],
        decreases n - i,
    {
        if matches_at(s, i, "..") {
            return true;
        }
        i = i + 1;
    }
    false
}

/// The checks on a path requested under a workspace root, before the root
/// is looked up: the root must be absolute and the path must not hold
/// `..`. What passes is the normalized relative path.
pub open spec fn workspace_rel(root_is_absolute: bool, rel: Seq<char>) -> Result<Seq<char>, Seq<char>> {
    if !root_is_absolute {
        Err("workspace_root must be absolute"@)
    } else if has_dot_dot(rel) {
        Err("path must not escape workspace"@)
    } else {
        Ok(normalized_rel(rel))
    }
}

/// Checks a path requested under a workspace root (`root_is_absolute`
/// tells whether the root is an absolute path) and normalizes it.
pub fn resolve(root_is_absolute: bool, rel: &str) -> (r: Result<String, String>)
    ensures
        match r {
            Ok(p) => workspace_rel(root_is_absolute, rel@) == Ok::<Seq<char>, Seq<char>>(p@),
            Err(e) => workspace_rel(root_is_absolute, rel@) == Err::<Seq<char>, Seq<char>>(e@),
        },
{
    if !root_is_absolute {
        return Err(String::from_str("workspace_root must be absolute"));
    }
    if contains_dot_dot(rel) {
        return Err(String::from_str("path must not escape workspace"));
    }
    Ok(normalize_rel(rel))
}

} // verus!
