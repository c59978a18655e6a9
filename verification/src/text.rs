//! Small pieces of text the store writes: ids, messages and status names.
use crate::model::status_name;
use crate::types::SessionStatus;
use vstd::prelude::*;

verus! {

/// `a` followed by `b`.
pub fn join(a: &str, b: &str) -> (r: String)
    ensures
        r@ == a@ + b@,
{
    let mut r = a.to_owned();
    r.append(b);
    r
}

/// The name of a session status, as messages write it.
pub fn status_text(s: SessionStatus) -> (r: &'static str)
    ensures
        r@ == status_name(s),
{
    match s {
        SessionStatus::Active => "Active",
        SessionStatus::Completed => "Completed",
        SessionStatus::Cancelled => "Cancelled",
        SessionStatus::Error => "Error",
    }
}

/// Whether two pieces of text are the same.
pub fn same_text(a: &str, b: &str) -> (r: bool)
    ensures
        r == (a@ == b@),
{
    a.to_owned().eq(&b.to_owned())
}

/// How many newline characters `s` holds.
pub open spec fn newline_count(s: Seq<char>) -> nat
    decreases s.len(),
{
    if s.len() == 0 {
        0
    } else {
        newline_count(s.drop_last()) + if s.last() == '\n' {
            1nat
        } else {
            0nat
        }
    }
}

/// How many lines `s` has: every newline ends a line, and text after the
/// last newline forms one more line. A carriage return before a newline
/// belongs to the line ending, so it adds no line.
pub open spec fn line_count(s: Seq<char>) -> nat {
    newline_count(s) + if s.len() > 0 && s.last() != '\n' {
        1nat
    } else {
        0nat
    }
}

proof fn lemma_newline_count_bound(s: Seq<char>)
    ensures
        newline_count(s) <= s.len(),
    decreases s.len(),
{
    if s.len() > 0 {
        lemma_newline_count_bound(s.drop_last());
    }
}

/// The number of lines of `text`, as `str::lines` yields them.
pub fn count_lines(text: &str) -> (n: usize)
    ensures
        n == line_count(text@),
{
    let len = text.unicode_len();
    let mut count: usize = 0;
    let mut last: Option<char> = None;
    for c in it: text.chars()
        invariant
            len == text@.len(),
            it.seq() == text@,
            count == newline_count(text@.take(it.index())),
            count <= it.index(),
            last == (if it.index() == 0 { None } else { Some(text@[it.index() - 1]) }),
    {
        proof {
            let k = it.index();
            assert(text@.take(k + 1).drop_last() =~= text@.take(k));
        }
        if c == '\n' {
            count = count + 1;
        }
        last = Some(c);
    }
    proof {
        assert(text@.take(text@.len() as int) =~= text@);
        if text@.len() > 0 {
            lemma_newline_count_bound(text@.drop_last());
        }
    }
    match last {
        Some(c) => {
            if c != '\n' {
                count + 1
            } else {
                count
            }
        },
        None => count,
    }
}

} // verus!
