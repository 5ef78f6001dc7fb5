//! Diff-text preparation: splitting a blob into lines, deterministic
//! truncation of long diffs, and the "+"-prefixed preview substituted for a
//! newly added file whose diff is empty.
//!
//! A line break is a single `'\n'`; as with Rust's `lines`, a final line
//! break does not open a further empty line.

use vstd::prelude::*;

use crate::text::{all_white, clone_chars, push_chars, push_str_chars, views_of, whitespace_only};

verus! {

/// The largest number of lines a diff or preview shows before it is cut.
pub const MAX_DIFF_LINES: usize = 100;

/// Every `'\n'`-separated segment of `s`, including the empty segment after
/// a final `'\n'`; the empty text has one (empty) segment.
pub open spec fn segments(s: Seq<char>) -> Seq<Seq<char>> {
    crate::text::split_sep(s, '\n')
}

/// The lines of `s`: its segments, except that a final line break does not
/// open a further empty line.
pub open spec fn lines_of(s: Seq<char>) -> Seq<Seq<char>> {
    if s.len() == 0 {
        Seq::empty()
    } else if s.last() == '\n' {
        segments(s.drop_last())
    } else {
        segments(s)
    }
}

/// How many lines `s` has.
pub open spec fn line_count(s: Seq<char>) -> nat {
    lines_of(s).len()
}

/// The lines joined back with single `'\n'` breaks (and no final break).
pub open spec fn joined(ls: Seq<Seq<char>>) -> Seq<char>
    decreases ls.len(),
{
    if ls.len() == 0 {
        Seq::empty()
    } else if ls.len() == 1 {
        ls[0]
    } else {
        joined(ls.drop_last()) + seq!['\n'] + ls.last()
    }
}

/// Every line prefixed with `"+ "`, marking the whole preview as added.
pub open spec fn plus_prefixed(ls: Seq<Seq<char>>) -> Seq<Seq<char>> {
    Seq::new(ls.len(), |i: int| seq!['+', ' '] + ls[i])
}

/// The decimal numeral of `n`, most significant digit first.
pub open spec fn dec_rep(n: nat) -> Seq<char>
    decreases n,
{
    if n < 10 {
        seq![dec_digit(n)]
    } else {
        dec_rep(n / 10).push(dec_digit(n % 10))
    }
}

/// The digit character for a value below ten.
pub open spec fn dec_digit(n: nat) -> char {
    if n == 0 {
        '0'
    } else if n == 1 {
        '1'
    } else if n == 2 {
        '2'
    } else if n == 3 {
        '3'
    } else if n == 4 {
        '4'
    } else if n == 5 {
        '5'
    } else if n == 6 {
        '6'
    } else if n == 7 {
        '7'
    } else if n == 8 {
        '8'
    } else if n == 9 {
        '9'
    } else {
        ' '
    }
}

/// A diff longer than [`MAX_DIFF_LINES`] is cut there, with a trailer saying
/// how many lines were dropped; a shorter one is handed back as it is.
pub open spec fn truncated_diff(s: Seq<char>) -> Seq<char> {
    if line_count(s) <= MAX_DIFF_LINES {
        s
    } else {
        joined(lines_of(s).take(MAX_DIFF_LINES as int)) + "\n... (diff truncated, "@ + dec_rep(
            (line_count(s) - MAX_DIFF_LINES) as nat,
        ) + " more lines)"@
    }
}

/// The preview substituted for an added file with no computable diff: each
/// line of the raw content marked as added, cut at [`MAX_DIFF_LINES`] with a
/// trailer saying how many lines were dropped.
pub open spec fn added_preview(content: Seq<char>) -> Seq<char> {
    if line_count(content) <= MAX_DIFF_LINES {
        joined(plus_prefixed(lines_of(content)))
    } else {
        joined(plus_prefixed(lines_of(content).take(MAX_DIFF_LINES as int))) + "\n... ("@
            + dec_rep((line_count(content) - MAX_DIFF_LINES) as nat) + " more lines)"@
    }
}

/// What the viewport shows for a selected file: the diff itself (truncated)
/// when it has any substance; otherwise the added-file preview of the raw
/// content, or a fixed notice when that content is unreadable too.
pub open spec fn prepared_diff(diff: Seq<char>, content: Option<Seq<char>>) -> Seq<char> {
    if !all_white(diff) {
        truncated_diff(diff)
    } else {
        match content {
            Some(c) => added_preview(c),
            None => "No changes to display"@,
        }
    }
}

/// The lines of `v`, split on `'\n'`.
pub fn split_lines(v: &Vec<char>) -> (r: Vec<Vec<char>>)
    ensures
        views_of(r@) == lines_of(v@),
        r@.len() == line_count(v@),
{
    if v.len() == 0 {
        let out: Vec<Vec<char>> = Vec::new();
        proof {
            assert(views_of(out@) =~= lines_of(v@));
        }
        return out;
    }
    let mut out = crate::text::split_on(v, '\n');
    if v[v.len() - 1] == '\n' {
        proof {
            let whole = segments(v@);
            assert(whole == segments(v@.drop_last()).push(Seq::<char>::empty()));
            crate::text::lemma_split_sep_len(v@.drop_last(), '\n');
        }
        out.pop();
        proof {
            assert(views_of(out@) =~= segments(v@).drop_last());
            assert(segments(v@).drop_last() =~= segments(v@.drop_last()));
        }
    }
    out
}

/// Joins lines with single `'\n'` breaks, appending to `dst`.
fn push_joined(dst: &mut Vec<char>, ls: &Vec<Vec<char>>)
    ensures
        final(dst)@ == old(dst)@ + joined(views_of(ls@)),
{
    let mut i: usize = 0;
    while i < ls.len()
        invariant
            i <= ls.len(),
            dst@ == old(dst)@ + joined(views_of(ls@).subrange(0, i as int)),
        decreases ls.len() - i,
    {
        let ghost pre = views_of(ls@).subrange(0, i as int);
        let ghost post = views_of(ls@).subrange(0, i + 1 as int);
        proof {
            assert(post.drop_last() =~= pre);
            assert(post.last() == ls@[i as int]@);
        }
        if i > 0 {
            dst.push('\n');
        }
        push_chars(dst, &ls[i]);
        proof {
            if i == 0 {
                assert(post.len() == 1);
                assert(joined(post) == post[0]);
                assert(dst@ =~= old(dst)@ + joined(post));
            } else {
                assert(joined(post) == joined(pre) + seq!['\n'] + post.last());
                assert(dst@ =~= old(dst)@ + joined(post));
            }
        }
        i = i + 1;
    }
    proof {
        assert(views_of(ls@).subrange(0, ls@.len() as int) =~= views_of(ls@));
    }
}

/// Appends the decimal numeral of `n` to `dst`.
pub fn push_decimal(dst: &mut Vec<char>, n: usize)
    ensures
        final(dst)@ == old(dst)@ + dec_rep(n as nat),
    decreases n,
{
    if n >= 10 {
        push_decimal(dst, n / 10);
    }
    let d = n % 10;
    let c = if d == 0 {
        '0'
    } else if d == 1 {
        '1'
    } else if d == 2 {
        '2'
    } else if d == 3 {
        '3'
    } else if d == 4 {
        '4'
    } else if d == 5 {
        '5'
    } else if d == 6 {
        '6'
    } else if d == 7 {
        '7'
    } else if d == 8 {
        '8'
    } else {
        '9'
    };
    dst.push(c);
    proof {
        if n < 10 {
            assert(dec_rep(n as nat) =~= seq![dec_digit(n as nat)]);
            assert(dst@ =~= old(dst)@ + dec_rep(n as nat));
        } else {
            assert(dst@ =~= old(dst)@ + dec_rep(n as nat));
        }
    }
}

/// The first `MAX_DIFF_LINES` lines marked `"+ "`, joined, with the
/// dropped-lines trailer when the content is longer.
pub fn build_added_preview(content: &Vec<char>) -> (r: Vec<char>)
    ensures
        r@ == added_preview(content@),
{
    let ls = split_lines(content);
    let mut marked: Vec<Vec<char>> = Vec::new();
    let shown = if ls.len() > MAX_DIFF_LINES {
        MAX_DIFF_LINES
    } else {
        ls.len()
    };
    let ghost kept = if ls@.len() > MAX_DIFF_LINES {
        views_of(ls@).take(MAX_DIFF_LINES as int)
    } else {
        views_of(ls@)
    };
    let mut i: usize = 0;
    while i < shown
        invariant
            i <= shown,
            shown <= ls@.len(),
            kept == if ls@.len() > MAX_DIFF_LINES {
                views_of(ls@).take(MAX_DIFF_LINES as int)
            } else {
                views_of(ls@)
            },
            shown == kept.len(),
            views_of(marked@) =~= plus_prefixed(kept).take(i as int),
        decreases shown - i,
    {
        let mut line: Vec<char> = Vec::new();
        line.push('+');
        line.push(' ');
        push_chars(&mut line, &ls[i]);
        marked.push(line);
        proof {
            assert(kept[i as int] == ls@[i as int]@);
            assert(plus_prefixed(kept)[i as int] == seq!['+', ' '] + ls@[i as int]@);
            assert(plus_prefixed(kept).take(i + 1 as int) =~= plus_prefixed(kept).take(
                i as int,
            ).push(seq!['+', ' '] + ls@[i as int]@));
            assert(line@ =~= seq!['+', ' '] + ls@[i as int]@);
            assert(views_of(marked@) =~= plus_prefixed(kept).take(i + 1 as int));
        }
        i = i + 1;
    }
    proof {
        assert(plus_prefixed(kept).take(shown as int) =~= plus_prefixed(kept));
    }
    let mut r: Vec<char> = Vec::new();
    push_joined(&mut r, &marked);
    if ls.len() > MAX_DIFF_LINES {
        push_str_chars(&mut r, "\n... (");
        push_decimal(&mut r, ls.len() - MAX_DIFF_LINES);
        push_str_chars(&mut r, " more lines)");
    }
    r
}

/// The diff unchanged when it fits, else its first `MAX_DIFF_LINES` lines
/// with the dropped-lines trailer.
pub fn build_truncated_diff(diff: &Vec<char>) -> (r: Vec<char>)
    ensures
        r@ == truncated_diff(diff@),
{
    let ls = split_lines(diff);
    if ls.len() <= MAX_DIFF_LINES {
        return clone_chars(diff);
    }
    let mut head: Vec<Vec<char>> = Vec::new();
    let mut i: usize = 0;
    while i < MAX_DIFF_LINES
        invariant
            i <= MAX_DIFF_LINES,
            MAX_DIFF_LINES < ls@.len(),
            views_of(head@) =~= views_of(ls@).take(MAX_DIFF_LINES as int).take(i as int),
        decreases MAX_DIFF_LINES - i,
    {
        let line = clone_chars(&ls[i]);
        head.push(line);
        proof {
            let kept = views_of(ls@).take(MAX_DIFF_LINES as int);
            assert(kept.take(i + 1 as int) =~= kept.take(i as int).push(ls@[i as int]@));
            assert(views_of(head@) =~= kept.take(i + 1 as int));
        }
        i = i + 1;
    }
    proof {
        let kept = views_of(ls@).take(MAX_DIFF_LINES as int);
        assert(kept.take(MAX_DIFF_LINES as int) =~= kept);
    }
    let mut r: Vec<char> = Vec::new();
    push_joined(&mut r, &head);
    push_str_chars(&mut r, "\n... (diff truncated, ");
    push_decimal(&mut r, ls.len() - MAX_DIFF_LINES);
    push_str_chars(&mut r, " more lines)");
    r
}

/// What the viewport shows for a file: the executable form of
/// [`prepared_diff`], fed with the fetched diff and, for an added file with
/// an empty diff, the raw file content when it could be read.
pub fn prepare_diff(diff: &Vec<char>, content: Option<&Vec<char>>) -> (r: Vec<char>)
    ensures
        r@ == prepared_diff(diff@, match content {
            Some(c) => Some(c@),
            None => None,
        }),
{
    if !whitespace_only(diff) {
        build_truncated_diff(diff)
    } else {
        match content {
            Some(c) => build_added_preview(c),
            None => crate::text::to_chars("No changes to display"),
        }
    }
}

/// A numstat report names a binary file: it opens with `'-'` in place of a
/// line count.
pub fn binary_numstat(report: &Vec<char>) -> (r: bool)
    ensures
        r == (report@.len() > 0 && report@[0] == '-'),
{
    report.len() > 0 && report[0] == '-'
}

} // verus!
