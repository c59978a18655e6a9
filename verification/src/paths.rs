//! The workspace trust boundary: which paths lie outside a session's
//! workspace.
//!
//! A path is read segment by segment, with `/` between segments. An empty
//! segment and `.` stay where they are, `..` climbs one level and any other
//! segment descends one. A path escapes when it climbs above where it started.
use crate::text::same_text;
use vstd::prelude::*;

verus! {

/// The kind of the segment read so far, after one more character `c`:
/// 0 for an empty segment, 1 for `.`, 2 for `..`, 3 for any other name.
pub open spec fn segment_kind_after(kind: int, c: char) -> int {
    if c == '.' {
        if kind == 0 {
            1
        } else if kind == 1 {
            2
        } else {
            3
        }
    } else {
        3
    }
}

/// The depth below the start after a segment of the given kind.
pub open spec fn depth_after_segment(depth: int, kind: int) -> int {
    if kind == 2 {
        depth - 1
    } else if kind == 3 {
        depth + 1
    } else {
        depth
    }
}

/// Reading the rest `s` of a path, `depth` levels below the start and in a
/// segment of kind `kind`, climbs above the start.
pub open spec fn climbs_above(s: Seq<char>, depth: int, kind: int) -> bool
    decreases s.len(),
{
    if s.len() == 0 {
        depth_after_segment(depth, kind) < 0
    } else if s[0] == '/' {
        let d = depth_after_segment(depth, kind);
        d < 0 || climbs_above(s.drop_first(), d, 0)
    } else {
        climbs_above(s.drop_first(), depth, segment_kind_after(kind, s[0]))
    }
}

/// The relative path `rel` climbs above the directory it is read from.
pub open spec fn escapes(rel: Seq<char>) -> bool {
    climbs_above(rel, 0, 0)
}

/// `path` starts with the directory `dir`: it is `dir` itself, or `dir`
/// followed by a separator.
pub open spec fn starts_in(path: Seq<char>, dir: Seq<char>) -> bool {
    &&& dir.len() <= path.len()
    &&& path.subrange(0, dir.len() as int) == dir
    &&& (path.len() == dir.len() || path[dir.len() as int] == '/' || (dir.len() > 0 && dir.last()
        == '/'))
}

/// `path` lies outside the workspace `workspace`: an absolute path that does
/// not start in the workspace or climbs out of it with `..`, or a relative
/// path (read from the workspace) that climbs out of it.
pub open spec fn outside_workspace(path: Seq<char>, workspace: Seq<char>) -> bool {
    if path.len() > 0 && path[0] == '/' {
        !starts_in(path, workspace) || escapes(path.subrange(workspace.len() as int, path.len() as int))
    } else {
        escapes(path)
    }
}

/// Some segment of `p` is exactly `..`: two dots, each end of which is an
/// end of `p` or a separator.
pub open spec fn has_dotdot_segment(p: Seq<char>) -> bool {
    exists|i: int|
        0 <= i && i + 1 < p.len() && #[trigger] p[i] == '.' && p[i + 1] == '.' && (i == 0 || p[i
            - 1] == '/') && (i + 2 == p.len() || p[i + 2] == '/')
}

/// The kind `kind` is the kind of the segment of `p` that ends at `i`: 0 right
/// after a separator or at the start, 1 after a lone `.`, 2 after a lone `..`.
pub open spec fn kind_fits(p: Seq<char>, i: int, kind: int) -> bool {
    &&& 0 <= kind <= 3
    &&& kind == 0 ==> (i == 0 || p[i - 1] == '/')
    &&& kind == 1 ==> (i >= 1 && p[i - 1] == '.' && (i == 1 || p[i - 2] == '/'))
    &&& kind == 2 ==> (i >= 2 && p[i - 1] == '.' && p[i - 2] == '.' && (i == 2 || p[i - 3]
        == '/'))
}

/// Reading a path with no `..` segment never climbs above where it started.
pub proof fn lemma_no_dotdot_never_climbs(p: Seq<char>, i: int, depth: int, kind: int)
    requires
        0 <= i <= p.len(),
        depth >= 0,
        !has_dotdot_segment(p),
        kind_fits(p, i, kind),
    ensures
        !climbs_above(p.subrange(i, p.len() as int), depth, kind),
    decreases p.len() - i,
{
    let rest = p.subrange(i, p.len() as int);
    if i == p.len() {
        if kind == 2 {
            assert(p[i - 2] == '.');
        }
    } else {
        assert(rest[0] == p[i]);
        assert(rest.drop_first() =~= p.subrange(i + 1, p.len() as int));
        if p[i] == '/' {
            if kind == 2 {
                assert(p[i - 2] == '.');
            }
            lemma_no_dotdot_never_climbs(p, i + 1, depth_after_segment(depth, kind), 0);
        } else {
            lemma_no_dotdot_never_climbs(p, i + 1, depth, segment_kind_after(kind, p[i]));
        }
    }
}

/// A separator in front of a path adds no `..` segment.
pub proof fn lemma_leading_separator_keeps_segments(rest: Seq<char>)
    requires
        !has_dotdot_segment(rest),
    ensures
        !has_dotdot_segment(seq!['/'] + rest),
{
    let p = seq!['/'] + rest;
    if has_dotdot_segment(p) {
        let i = choose|i: int|
            0 <= i && i + 1 < p.len() && #[trigger] p[i] == '.' && p[i + 1] == '.' && (i == 0
                || p[i - 1] == '/') && (i + 2 == p.len() || p[i + 2] == '/');
        assert(rest[i - 1] == '.');
        assert(has_dotdot_segment(rest));
    }
}

/// Whether `text`, read from the character at `from` on, climbs above where
/// it starts.
pub fn escapes_from(text: &str, from: usize) -> (r: bool)
    requires
        from <= text@.len(),
    ensures
        r == escapes(text@.subrange(from as int, text@.len() as int)),
{
    let n = text.unicode_len();
    let ghost whole = text@.subrange(from as int, text@.len() as int);
    let mut escaped = false;
    let mut depth: usize = 0;
    let mut kind: u8 = 0;
    let mut pos: usize = 0;
    for c in it: text.chars()
        invariant
            n == text@.len(),
            from <= n,
            it.seq() == text@,
            whole == text@.subrange(from as int, text@.len() as int),
            kind <= 3,
            pos == it.index(),
            depth <= it.index(),
            it.index() <= from ==> depth == 0 && kind == 0 && !escaped,
            it.index() >= from ==> (escapes(whole) == (escaped || climbs_above(
                text@.subrange(it.index(), text@.len() as int),
                depth as int,
                kind as int,
            ))),
    {
        let ghost k = it.index();
        proof {
            let rest = text@.subrange(k, text@.len() as int);
            assert(rest.drop_first() =~= text@.subrange(k + 1, text@.len() as int));
            assert(rest[0] == c);
            if k == from {
                assert(rest =~= whole);
            }
        }
        if !escaped && from <= pos {
            if c == '/' {
                if kind == 2 {
                    if depth == 0 {
                        escaped = true;
                    } else {
                        depth = depth - 1;
                    }
                } else if kind == 3 {
                    depth = depth + 1;
                }
                kind = 0;
            } else if c == '.' {
                if kind == 0 {
                    kind = 1;
                } else if kind == 1 {
                    kind = 2;
                } else {
                    kind = 3;
                }
            } else {
                kind = 3;
            }
        }
        pos = pos + 1;
    }
    proof {
        if from == n {
            assert(whole =~= Seq::<char>::empty());
        }
        assert(text@.subrange(text@.len() as int, text@.len() as int) =~= Seq::<char>::empty());
    }
    escaped || (kind == 2 && depth == 0)
}

/// Whether `path` lies outside the workspace `workspace`.
pub fn is_outside_workspace(path: &str, workspace: &str) -> (r: bool)
    ensures
        r == outside_workspace(path@, workspace@),
{
    let n = path.unicode_len();
    let w = workspace.unicode_len();
    if n == 0 || path.get_char(0) != '/' {
        proof {
            assert(path@.subrange(0, path@.len() as int) =~= path@);
        }
        return escapes_from(path, 0);
    }
    if w > n {
        return true;
    }
    let head = path.substring_char(0, w);
    if !same_text(head, workspace) {
        return true;
    }
    let boundary = w == n || path.get_char(w) == '/' || (w > 0 && workspace.get_char(w - 1) == '/');
    if !boundary {
        return true;
    }
    escapes_from(path, w)
}

} // verus!
