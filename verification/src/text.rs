//! Character-sequence utilities shared by the editor, the filtered lists and
//! the branch matcher: ASCII case folding, substring and prefix tests, and a
//! bridge from `&str` to `Vec<char>`.
//!
//! All text in the core is held as `Vec<char>`, viewed as `Seq<char>`; cursor
//! and index arithmetic is character-based throughout.

use vstd::prelude::*;
use vstd::string::StrSliceExecFns;

verus! {

/// ASCII lowercase folding of a single character; everything outside
/// `'A'..='Z'` is left as it is.
pub open spec fn lower_char(c: char) -> char {
    match c {
        'A' => 'a',
        'B' => 'b',
        'C' => 'c',
        'D' => 'd',
        'E' => 'e',
        'F' => 'f',
        'G' => 'g',
        'H' => 'h',
        'I' => 'i',
        'J' => 'j',
        'K' => 'k',
        'L' => 'l',
        'M' => 'm',
        'N' => 'n',
        'O' => 'o',
        'P' => 'p',
        'Q' => 'q',
        'R' => 'r',
        'S' => 's',
        'T' => 't',
        'U' => 'u',
        'V' => 'v',
        'W' => 'w',
        'X' => 'x',
        'Y' => 'y',
        'Z' => 'z',
        _ => c,
    }
}

/// ASCII lowercase folding of a whole sequence.
pub open spec fn lower_seq(s: Seq<char>) -> Seq<char> {
    Seq::new(s.len(), |i: int| lower_char(s[i]))
}

/// `needle` occurs in `hay` starting exactly at offset `i`.
pub open spec fn matches_at(hay: Seq<char>, needle: Seq<char>, i: int) -> bool {
    &&& 0 <= i
    &&& i + needle.len() <= hay.len()
    &&& hay.subrange(i, i + needle.len() as int) == needle
}

/// `needle` occurs somewhere in `hay` (the empty needle occurs everywhere).
pub open spec fn has_substring(hay: Seq<char>, needle: Seq<char>) -> bool {
    exists|i: int| matches_at(hay, needle, i)
}

/// `p` is a prefix of `s`.
pub open spec fn has_prefix(s: Seq<char>, p: Seq<char>) -> bool {
    p.len() <= s.len() && s.subrange(0, p.len() as int) == p
}

/// Case-insensitive substring match: the filter rule of every list in the
/// wizard.
pub open spec fn matches_filter(cand: Seq<char>, filter: Seq<char>) -> bool {
    has_substring(lower_seq(cand), lower_seq(filter))
}

/// The sequence consists of ASCII spaces only (so it trims to nothing).
pub open spec fn is_blank(s: Seq<char>) -> bool {
    forall|i: int| 0 <= i < s.len() ==> s[i] == ' '
}

/// ASCII whitespace, as far as trimming a diff is concerned.
pub open spec fn is_white(c: char) -> bool {
    c == ' ' || c == '\t' || c == '\n' || c == '\r'
}

/// The sequence consists of whitespace only.
pub open spec fn all_white(s: Seq<char>) -> bool {
    forall|i: int| 0 <= i < s.len() ==> is_white(s[i])
}

/// The views of a sequence of character vectors.
pub open spec fn views_of(s: Seq<Vec<char>>) -> Seq<Seq<char>> {
    Seq::new(s.len(), |i: int| s[i]@)
}

/// Every `sep`-separated segment of `s`, including empty ones; the empty
/// text has one (empty) segment.
pub open spec fn split_sep(s: Seq<char>, sep: char) -> Seq<Seq<char>>
    decreases s.len(),
{
    if s.len() == 0 {
        seq![Seq::<char>::empty()]
    } else if s.last() == sep {
        split_sep(s.drop_last(), sep).push(Seq::<char>::empty())
    } else {
        let rest = split_sep(s.drop_last(), sep);
        rest.update(rest.len() - 1, rest.last().push(s.last()))
    }
}

/// `split_sep` always yields at least one segment.
pub proof fn lemma_split_sep_len(s: Seq<char>, sep: char)
    ensures
        split_sep(s, sep).len() >= 1,
    decreases s.len(),
{
    if s.len() > 0 {
        lemma_split_sep_len(s.drop_last(), sep);
    }
}

/// Splits `v` on `sep`, keeping every segment.
pub fn split_on(v: &Vec<char>, sep: char) -> (r: Vec<Vec<char>>)
    ensures
        views_of(r@) == split_sep(v@, sep),
{
    let mut out: Vec<Vec<char>> = Vec::new();
    let mut cur: Vec<char> = Vec::new();
    let mut i: usize = 0;
    while i < v.len()
        invariant
            i <= v.len(),
            views_of(out@).push(cur@) =~= split_sep(v@.subrange(0, i as int), sep),
        decreases v.len() - i,
    {
        let ghost pre = v@.subrange(0, i as int);
        let ghost post = v@.subrange(0, i + 1 as int);
        proof {
            assert(post.drop_last() =~= pre);
            assert(post.last() == v@[i as int]);
            lemma_split_sep_len(pre, sep);
        }
        if v[i] == sep {
            out.push(cur);
            cur = Vec::new();
            proof {
                assert(views_of(out@).push(cur@) =~= split_sep(post, sep));
            }
        } else {
            cur.push(v[i]);
            proof {
                assert(views_of(out@).push(cur@) =~= split_sep(post, sep));
            }
        }
        i = i + 1;
    }
    proof {
        assert(v@.subrange(0, v@.len() as int) =~= v@);
    }
    out.push(cur);
    proof {
        assert(views_of(out@) =~= split_sep(v@, sep));
    }
    out
}

/// `s` without its leading whitespace.
pub open spec fn trim_left(s: Seq<char>) -> Seq<char>
    decreases s.len(),
{
    if s.len() > 0 && is_white(s[0]) {
        trim_left(s.drop_first())
    } else {
        s
    }
}

/// `s` without its trailing whitespace.
pub open spec fn trim_right(s: Seq<char>) -> Seq<char>
    decreases s.len(),
{
    if s.len() > 0 && is_white(s.last()) {
        trim_right(s.drop_last())
    } else {
        s
    }
}

/// `s` without leading and trailing whitespace.
pub open spec fn trimmed(s: Seq<char>) -> Seq<char> {
    trim_right(trim_left(s))
}

/// `s` without every leading occurrence of `c`.
pub open spec fn drop_leading(s: Seq<char>, c: char) -> Seq<char>
    decreases s.len(),
{
    if s.len() > 0 && s[0] == c {
        drop_leading(s.drop_first(), c)
    } else {
        s
    }
}

/// `s` without every trailing occurrence of `c`.
pub open spec fn drop_trailing(s: Seq<char>, c: char) -> Seq<char>
    decreases s.len(),
{
    if s.len() > 0 && s.last() == c {
        drop_trailing(s.drop_last(), c)
    } else {
        s
    }
}

/// A copy of `v` with leading and trailing whitespace removed.
pub fn trim_spaces(v: &Vec<char>) -> (r: Vec<char>)
    ensures
        r@ == trimmed(v@),
{
    let len = v.len();
    proof {
        assert(v@.subrange(0, len as int) =~= v@);
    }
    let mut start: usize = 0;
    while start < len && (v[start] == ' ' || v[start] == '\t' || v[start] == '\n' || v[start]
        == '\r')
        invariant
            start <= len,
            len == v@.len(),
            trim_left(v@.subrange(start as int, len as int)) == trim_left(v@),
        decreases len - start,
    {
        proof {
            assert(v@.subrange(start as int, len as int).drop_first() =~= v@.subrange(
                start + 1 as int,
                len as int,
            ));
        }
        start = start + 1;
    }
    proof {
        assert(trim_left(v@) =~= v@.subrange(start as int, len as int));
    }
    let mut end: usize = len;
    while end > start && (v[end - 1] == ' ' || v[end - 1] == '\t' || v[end - 1] == '\n' || v[end
        - 1] == '\r')
        invariant
            start <= end <= len,
            len == v@.len(),
            trim_left(v@) == v@.subrange(start as int, len as int),
            trim_right(v@.subrange(start as int, end as int)) == trim_right(trim_left(v@)),
        decreases end,
    {
        proof {
            assert(v@.subrange(start as int, end as int).drop_last() =~= v@.subrange(
                start as int,
                end - 1 as int,
            ));
        }
        end = end - 1;
    }
    proof {
        assert(trimmed(v@) =~= v@.subrange(start as int, end as int));
    }
    let mut r: Vec<char> = Vec::new();
    let mut i: usize = start;
    while i < end
        invariant
            start <= i <= end <= v@.len(),
            r@ == v@.subrange(start as int, i as int),
        decreases end - i,
    {
        r.push(v[i]);
        proof {
            assert(v@.subrange(start as int, i + 1 as int) =~= v@.subrange(
                start as int,
                i as int,
            ).push(v@[i as int]));
        }
        i = i + 1;
    }
    r
}

/// Appends `v` without its leading `c` occurrences to `dst`.
pub fn push_without_leading(dst: &mut Vec<char>, v: &Vec<char>, c: char)
    ensures
        final(dst)@ == old(dst)@ + drop_leading(v@, c),
{
    let len = v.len();
    proof {
        assert(v@.subrange(0, len as int) =~= v@);
    }
    let mut start: usize = 0;
    while start < len && v[start] == c
        invariant
            start <= len,
            len == v@.len(),
            dst@ == old(dst)@,
            drop_leading(v@.subrange(start as int, len as int), c) == drop_leading(v@, c),
        decreases len - start,
    {
        proof {
            assert(v@.subrange(start as int, len as int).drop_first() =~= v@.subrange(
                start + 1 as int,
                len as int,
            ));
        }
        start = start + 1;
    }
    proof {
        assert(drop_leading(v@, c) =~= v@.subrange(start as int, len as int));
    }
    let mut i: usize = start;
    while i < len
        invariant
            start <= i <= len,
            len == v@.len(),
            dst@ == old(dst)@ + v@.subrange(start as int, i as int),
        decreases len - i,
    {
        dst.push(v[i]);
        proof {
            assert(v@.subrange(start as int, i + 1 as int) =~= v@.subrange(
                start as int,
                i as int,
            ).push(v@[i as int]));
        }
        i = i + 1;
    }
}

/// Appends `v` without its trailing `c` occurrences to `dst`.
pub fn push_without_trailing(dst: &mut Vec<char>, v: &Vec<char>, c: char)
    ensures
        final(dst)@ == old(dst)@ + drop_trailing(v@, c),
{
    let mut end: usize = v.len();
    proof {
        assert(v@.subrange(0, end as int) =~= v@);
    }
    while end > 0 && v[end - 1] == c
        invariant
            end <= v@.len(),
            dst@ == old(dst)@,
            drop_trailing(v@.subrange(0, end as int), c) == drop_trailing(v@, c),
        decreases end,
    {
        proof {
            assert(v@.subrange(0, end as int).drop_last() =~= v@.subrange(0, end - 1 as int));
        }
        end = end - 1;
    }
    proof {
        assert(drop_trailing(v@, c) =~= v@.subrange(0, end as int));
    }
    let mut i: usize = 0;
    while i < end
        invariant
            i <= end <= v@.len(),
            dst@ == old(dst)@ + v@.subrange(0, i as int),
        decreases end - i,
    {
        dst.push(v[i]);
        proof {
            assert(v@.subrange(0, i + 1 as int) =~= v@.subrange(0, i as int).push(v@[i as int]));
        }
        i = i + 1;
    }
}

/// Executable ASCII lowercase folding.
pub fn lower(c: char) -> (r: char)
    ensures
        r == lower_char(c),
{
    match c {
        'A' => 'a',
        'B' => 'b',
        'C' => 'c',
        'D' => 'd',
        'E' => 'e',
        'F' => 'f',
        'G' => 'g',
        'H' => 'h',
        'I' => 'i',
        'J' => 'j',
        'K' => 'k',
        'L' => 'l',
        'M' => 'm',
        'N' => 'n',
        'O' => 'o',
        'P' => 'p',
        'Q' => 'q',
        'R' => 'r',
        'S' => 's',
        'T' => 't',
        'U' => 'u',
        'V' => 'v',
        'W' => 'w',
        'X' => 'x',
        'Y' => 'y',
        'Z' => 'z',
        _ => c,
    }
}

/// Exact equality of two character vectors.
pub fn chars_eq(a: &Vec<char>, b: &Vec<char>) -> (r: bool)
    ensures
        r == (a@ == b@),
{
    if a.len() != b.len() {
        return false;
    }
    let mut i: usize = 0;
    while i < a.len()
        invariant
            i <= a.len(),
            a.len() == b.len(),
            forall|k: int| 0 <= k < i ==> a@[k] == b@[k],
        decreases a.len() - i,
    {
        if a[i] != b[i] {
            return false;
        }
        i = i + 1;
    }
    proof {
        assert(a@ =~= b@);
    }
    true
}

/// Case-insensitive prefix test.
pub fn starts_with_ci(s: &Vec<char>, p: &Vec<char>) -> (r: bool)
    ensures
        r == has_prefix(lower_seq(s@), lower_seq(p@)),
{
    if p.len() > s.len() {
        return false;
    }
    let mut i: usize = 0;
    while i < p.len()
        invariant
            i <= p.len(),
            p.len() <= s.len(),
            forall|k: int| 0 <= k < i ==> lower_char(s@[k]) == lower_char(p@[k]),
        decreases p.len() - i,
    {
        if lower(s[i]) != lower(p[i]) {
            proof {
                assert(lower_seq(s@).subrange(0, p@.len() as int)[i as int] != lower_seq(p@)[
                    i as int
                ]);
            }
            return false;
        }
        i = i + 1;
    }
    proof {
        assert(lower_seq(s@).subrange(0, p@.len() as int) =~= lower_seq(p@));
    }
    true
}

/// Case-insensitive substring test between `hay` and `needle` at one offset.
fn matches_at_ci(hay: &Vec<char>, needle: &Vec<char>, at: usize) -> (r: bool)
    requires
        at + needle@.len() <= hay@.len(),
    ensures
        r == matches_at(lower_seq(hay@), lower_seq(needle@), at as int),
{
    let hl = hay.len();
    let n = needle.len();
    let mut j: usize = 0;
    while j < n
        invariant
            j <= n,
            n == needle@.len(),
            hl == hay@.len(),
            at + n <= hl,
            forall|k: int| 0 <= k < j ==> lower_char(hay@[at + k]) == lower_char(needle@[k]),
        decreases n - j,
    {
        if lower(hay[at + j]) != lower(needle[j]) {
            proof {
                let h = lower_seq(hay@);
                let n = lower_seq(needle@);
                assert(h.subrange(at as int, at + n.len() as int)[j as int] != n[j as int]);
            }
            return false;
        }
        j = j + 1;
    }
    proof {
        let h = lower_seq(hay@);
        let n = lower_seq(needle@);
        assert(h.subrange(at as int, at + n.len() as int) =~= n);
    }
    true
}

/// Case-insensitive substring search, the executable form of
/// [`matches_filter`].
pub fn contains_ci(hay: &Vec<char>, needle: &Vec<char>) -> (r: bool)
    ensures
        r == matches_filter(hay@, needle@),
{
    if needle.len() > hay.len() {
        proof {
            assert(forall|i: int| !matches_at(lower_seq(hay@), lower_seq(needle@), i));
        }
        return false;
    }
    if needle.len() == 0 {
        proof {
            assert(lower_seq(hay@).subrange(0, 0) =~= lower_seq(needle@));
            assert(matches_at(lower_seq(hay@), lower_seq(needle@), 0));
        }
        return true;
    }
    let hl = hay.len();
    let bound = hay.len() - needle.len();
    let mut i: usize = 0;
    while i <= bound
        invariant
            hl == hay@.len(),
            1 <= needle@.len(),
            bound == hay@.len() - needle@.len(),
            i <= bound + 1,
            forall|k: int| 0 <= k < i ==> !matches_at(lower_seq(hay@), lower_seq(needle@), k),
        decreases bound + 1 - i,
    {
        if matches_at_ci(hay, needle, i) {
            return true;
        }
        i = i + 1;
    }
    proof {
        assert(forall|k: int| !matches_at(lower_seq(hay@), lower_seq(needle@), k));
    }
    false
}

/// The characters of a string slice, in order.
pub fn to_chars(s: &str) -> (v: Vec<char>)
    ensures
        v@ == s@,
{
    let n = s.unicode_len();
    let mut v: Vec<char> = Vec::new();
    let mut i: usize = 0;
    while i < n
        invariant
            i <= n,
            n == s@.len(),
            v@ == s@.subrange(0, i as int),
        decreases n - i,
    {
        let c = s.get_char(i);
        v.push(c);
        proof {
            assert(s@.subrange(0, i + 1 as int) =~= s@.subrange(0, i as int).push(s@[i as int]));
        }
        i = i + 1;
    }
    proof {
        assert(s@.subrange(0, s@.len() as int) =~= s@);
    }
    v
}

/// Appends every character of `src` to `dst`.
pub fn push_chars(dst: &mut Vec<char>, src: &Vec<char>)
    ensures
        final(dst)@ == old(dst)@ + src@,
{
    let mut i: usize = 0;
    while i < src.len()
        invariant
            i <= src.len(),
            dst@ == old(dst)@ + src@.subrange(0, i as int),
        decreases src.len() - i,
    {
        dst.push(src[i]);
        proof {
            assert(src@.subrange(0, i + 1 as int) =~= src@.subrange(0, i as int).push(
                src@[i as int],
            ));
        }
        i = i + 1;
    }
    proof {
        assert(src@.subrange(0, src@.len() as int) =~= src@);
    }
}

/// A copy of a character vector with the same contents.
pub fn clone_chars(v: &Vec<char>) -> (r: Vec<char>)
    ensures
        r@ == v@,
{
    let mut r: Vec<char> = Vec::new();
    let mut i: usize = 0;
    while i < v.len()
        invariant
            i <= v.len(),
            r@ == v@.subrange(0, i as int),
        decreases v.len() - i,
    {
        r.push(v[i]);
        proof {
            assert(v@.subrange(0, i + 1 as int) =~= v@.subrange(0, i as int).push(v@[i as int]));
        }
        i = i + 1;
    }
    proof {
        assert(v@.subrange(0, v@.len() as int) =~= v@);
    }
    r
}

/// Appends the characters of a string slice to `dst`.
pub fn push_str_chars(dst: &mut Vec<char>, s: &str)
    ensures
        final(dst)@ == old(dst)@ + s@,
{
    let v = to_chars(s);
    push_chars(dst, &v);
}

/// True when the vector trims to the empty string (spaces only).
pub fn blank(v: &Vec<char>) -> (r: bool)
    ensures
        r == is_blank(v@),
{
    let mut i: usize = 0;
    while i < v.len()
        invariant
            i <= v.len(),
            forall|k: int| 0 <= k < i ==> v@[k] == ' ',
        decreases v.len() - i,
    {
        if v[i] != ' ' {
            return false;
        }
        i = i + 1;
    }
    true
}

/// `x` occurs among `names`.
pub open spec fn contains_name(names: Seq<Seq<char>>, x: Seq<char>) -> bool {
    exists|i: int| 0 <= i < names.len() && names[i] == x
}

/// Whether `x` occurs among `names`, character for character.
pub fn has_name(names: &Vec<Vec<char>>, x: &Vec<char>) -> (r: bool)
    ensures
        r == contains_name(views_of(names@), x@),
{
    let mut i: usize = 0;
    while i < names.len()
        invariant
            i <= names@.len(),
            forall|k: int| 0 <= k < i ==> views_of(names@)[k] != x@,
        decreases names@.len() - i,
    {
        if chars_eq(&names[i], x) {
            proof {
                assert(views_of(names@)[i as int] == x@);
            }
            return true;
        }
        i = i + 1;
    }
    false
}

/// `r` is the first occurrence of `x` among `names`, or 0 when `x` does not
/// occur at all.
pub open spec fn first_index_of(names: Seq<Seq<char>>, x: Seq<char>, r: int) -> bool {
    if contains_name(names, x) {
        &&& 0 <= r < names.len()
        &&& names[r] == x
        &&& forall|k: int| 0 <= k < r ==> names[k] != x
    } else {
        r == 0
    }
}

/// The index of the first occurrence of `x` among `names` (0 when absent).
pub fn index_of_name(names: &Vec<Vec<char>>, x: &Vec<char>) -> (r: usize)
    ensures
        first_index_of(views_of(names@), x@, r as int),
        r == 0 || r < names@.len(),
{
    let mut i: usize = 0;
    while i < names.len()
        invariant
            i <= names@.len(),
            forall|k: int| 0 <= k < i ==> views_of(names@)[k] != x@,
        decreases names@.len() - i,
    {
        if chars_eq(&names[i], x) {
            proof {
                assert(views_of(names@)[i as int] == x@);
            }
            return i;
        }
        i = i + 1;
    }
    0
}

/// An ASCII decimal digit; only these reach the story-number field.
pub open spec fn is_digit(c: char) -> bool {
    c == '0' || c == '1' || c == '2' || c == '3' || c == '4' || c == '5' || c == '6' || c == '7'
        || c == '8' || c == '9'
}

/// Whether `c` is an ASCII decimal digit.
pub fn digit(c: char) -> (r: bool)
    ensures
        r == is_digit(c),
{
    c == '0' || c == '1' || c == '2' || c == '3' || c == '4' || c == '5' || c == '6' || c == '7'
        || c == '8' || c == '9'
}

/// True when the vector holds whitespace only (so a diff of it is empty).
pub fn whitespace_only(v: &Vec<char>) -> (r: bool)
    ensures
        r == all_white(v@),
{
    let mut i: usize = 0;
    while i < v.len()
        invariant
            i <= v.len(),
            forall|k: int| 0 <= k < i ==> is_white(v@[k]),
        decreases v.len() - i,
    {
        let c = v[i];
        if !(c == ' ' || c == '\t' || c == '\n' || c == '\r') {
            return false;
        }
        i = i + 1;
    }
    true
}

} // verus!
