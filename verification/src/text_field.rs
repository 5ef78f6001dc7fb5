//! A line-text editor: a character buffer and a cursor offset, with
//! insertion, single-character and word-wise deletion, and cursor motion.
//!
//! The cursor is always within `0 ..= buffer.len()`; every operation
//! re-establishes that invariant. A word boundary is a transition between a
//! run of ASCII spaces and a run of non-space characters.

use vstd::prelude::*;

verus! {

/// Steps left from `p` while the character at `p` is a space, stopping at 0.
pub open spec fn skip_spaces_left(s: Seq<char>, p: int) -> int
    decreases p,
{
    if p > 0 && s[p] == ' ' {
        skip_spaces_left(s, p - 1)
    } else {
        p
    }
}

/// Steps left from `p` while the character to the left of `p` is not a
/// space, stopping at 0.
pub open spec fn skip_word_left(s: Seq<char>, p: int) -> int
    decreases p,
{
    if p > 0 && s[p - 1] != ' ' {
        skip_word_left(s, p - 1)
    } else {
        p
    }
}

/// The offset of the start of the word preceding `pos`: left over trailing
/// spaces, then left to the start of the word; 0 stays 0.
pub open spec fn prev_boundary(s: Seq<char>, pos: int) -> int {
    if pos == 0 {
        0
    } else {
        skip_word_left(s, skip_spaces_left(s, pos - 1))
    }
}

/// Steps right from `p` over a run of non-space characters.
pub open spec fn skip_word_right(s: Seq<char>, p: int) -> int
    decreases s.len() - p,
{
    if p < s.len() && s[p] != ' ' {
        skip_word_right(s, p + 1)
    } else {
        p
    }
}

/// Steps right from `p` over a run of spaces.
pub open spec fn skip_spaces_right(s: Seq<char>, p: int) -> int
    decreases s.len() - p,
{
    if p < s.len() && s[p] == ' ' {
        skip_spaces_right(s, p + 1)
    } else {
        p
    }
}

/// The offset just past the word at `pos` and its following spaces; the end
/// of the content stays the end.
pub open spec fn next_boundary(s: Seq<char>, pos: int) -> int {
    skip_spaces_right(s, skip_word_right(s, pos))
}

/// A mutable text buffer with a cursor offset, created per input step of the
/// wizard (commit message, story number, branch name, search query).
pub struct TextField {
    pub buffer: Vec<char>,
    pub cursor: usize,
}

/// `post` is `pre` with `c` inserted at the cursor and the cursor moved past
/// it.
pub open spec fn inserted(pre: TextField, c: char, post: TextField) -> bool {
    &&& post.buffer@ == pre.buffer@.insert(pre.cursor as int, c)
    &&& post.cursor == pre.cursor + 1
}

/// `post` is `pre` with the character left of the cursor removed (a no-op
/// at 0).
pub open spec fn deleted_backward(pre: TextField, post: TextField) -> bool {
    if pre.cursor == 0 {
        post == pre
    } else {
        &&& post.buffer@ == pre.buffer@.remove(pre.cursor - 1)
        &&& post.cursor == pre.cursor - 1
    }
}

/// `post` is `pre` with the character under the cursor removed (a no-op at
/// the end).
pub open spec fn deleted_forward(pre: TextField, post: TextField) -> bool {
    if pre.cursor == pre.buffer@.len() {
        post == pre
    } else {
        &&& post.buffer@ == pre.buffer@.remove(pre.cursor as int)
        &&& post.cursor == pre.cursor
    }
}

/// `post` is `pre` with the span from the previous word boundary up to the
/// cursor removed and the cursor on that boundary.
pub open spec fn deleted_word_backward(pre: TextField, post: TextField) -> bool {
    let start = prev_boundary(pre.buffer@, pre.cursor as int);
    &&& post.buffer@ == pre.buffer@.subrange(0, start) + pre.buffer@.subrange(
        pre.cursor as int,
        pre.buffer@.len() as int,
    )
    &&& post.cursor == start
}

/// `post` is `pre` with the word following the cursor (after any spaces)
/// removed; the cursor does not move.
pub open spec fn deleted_word_forward(pre: TextField, post: TextField) -> bool {
    let word_start = skip_spaces_right(pre.buffer@, pre.cursor as int);
    let word_end = skip_word_right(pre.buffer@, word_start);
    &&& post.buffer@ == pre.buffer@.subrange(0, word_start) + pre.buffer@.subrange(
        word_end,
        pre.buffer@.len() as int,
    )
    &&& post.cursor == pre.cursor
}

/// `post` is `pre` with the cursor one left, clamped at 0.
pub open spec fn moved_left(pre: TextField, post: TextField) -> bool {
    &&& post.buffer == pre.buffer
    &&& post.cursor == if pre.cursor > 0 {
        pre.cursor - 1
    } else {
        0int
    }
}

/// `post` is `pre` with the cursor one right, clamped at the end.
pub open spec fn moved_right(pre: TextField, post: TextField) -> bool {
    &&& post.buffer == pre.buffer
    &&& post.cursor == if pre.cursor < pre.buffer@.len() {
        pre.cursor + 1
    } else {
        pre.cursor as int
    }
}

/// `post` is `pre` with the cursor at the start of the line.
pub open spec fn moved_home(pre: TextField, post: TextField) -> bool {
    &&& post.buffer == pre.buffer
    &&& post.cursor == 0
}

/// `post` is `pre` with the cursor at the end of the line.
pub open spec fn moved_end(pre: TextField, post: TextField) -> bool {
    &&& post.buffer == pre.buffer
    &&& post.cursor == pre.buffer@.len()
}

/// `post` is `pre` with the cursor on the previous word boundary.
pub open spec fn moved_word_left(pre: TextField, post: TextField) -> bool {
    &&& post.buffer == pre.buffer
    &&& post.cursor == prev_boundary(pre.buffer@, pre.cursor as int)
}

/// `post` is `pre` with the cursor on the next word boundary.
pub open spec fn moved_word_right(pre: TextField, post: TextField) -> bool {
    &&& post.buffer == pre.buffer
    &&& post.cursor == next_boundary(pre.buffer@, pre.cursor as int)
}

/// Removes the characters at `start ..< end`, keeping the rest in order.
fn remove_range(v: &mut Vec<char>, start: usize, end: usize)
    requires
        start <= end <= old(v)@.len(),
    ensures
        final(v)@ == old(v)@.subrange(0, start as int) + old(v)@.subrange(
            end as int,
            old(v)@.len() as int,
        ),
{
    let mut out: Vec<char> = Vec::new();
    let mut i: usize = 0;
    while i < start
        invariant
            i <= start,
            start <= end <= v@.len(),
            v@ == old(v)@,
            out@ == v@.subrange(0, i as int),
        decreases start - i,
    {
        out.push(v[i]);
        proof {
            assert(v@.subrange(0, i + 1 as int) =~= v@.subrange(0, i as int).push(v@[i as int]));
        }
        i = i + 1;
    }
    let len = v.len();
    let mut j: usize = end;
    while j < len
        invariant
            end <= j <= len,
            start <= end <= v@.len(),
            len == v@.len(),
            v@ == old(v)@,
            out@ == v@.subrange(0, start as int) + v@.subrange(end as int, j as int),
        decreases len - j,
    {
        out.push(v[j]);
        proof {
            assert(v@.subrange(end as int, j + 1 as int) =~= v@.subrange(end as int, j as int).push(
                v@[j as int],
            ));
        }
        j = j + 1;
    }
    *v = out;
}

impl TextField {
    /// The cursor never leaves the buffer: `0 <= cursor <= len`.
    pub open spec fn wf(self) -> bool {
        self.cursor <= self.buffer@.len()
    }

    /// A field holding `content` with the cursor at the end of it.
    pub fn new(content: Vec<char>) -> (tf: TextField)
        ensures
            tf.buffer@ == content@,
            tf.cursor == content@.len(),
            tf.wf(),
    {
        let cursor = content.len();
        TextField { buffer: content, cursor }
    }

    /// An empty field.
    pub fn empty() -> (tf: TextField)
        ensures
            tf.buffer@ == Seq::<char>::empty(),
            tf.cursor == 0,
            tf.wf(),
    {
        TextField { buffer: Vec::new(), cursor: 0 }
    }

    /// Inserts `c` at the cursor and moves the cursor past it.
    pub fn insert(&mut self, c: char)
        requires
            old(self).wf(),
            old(self).buffer@.len() < usize::MAX,
        ensures
            inserted(*old(self), c, *final(self)),
            final(self).wf(),
    {
        self.buffer.insert(self.cursor, c);
        self.cursor = self.cursor + 1;
    }

    /// Removes the character left of the cursor, if any, and moves the
    /// cursor onto its place; a no-op with the cursor at 0.
    pub fn delete_backward(&mut self)
        requires
            old(self).wf(),
        ensures
            deleted_backward(*old(self), *final(self)),
            final(self).wf(),
    {
        if self.cursor > 0 {
            self.cursor = self.cursor - 1;
            self.buffer.remove(self.cursor);
        }
    }

    /// Removes the character under the cursor, if any; a no-op at the end.
    pub fn delete_forward(&mut self)
        requires
            old(self).wf(),
        ensures
            deleted_forward(*old(self), *final(self)),
            final(self).wf(),
    {
        if self.cursor < self.buffer.len() {
            self.buffer.remove(self.cursor);
        }
    }

    /// The start of the word preceding `pos` (0 at the left edge).
    pub fn prev_word_boundary(&self, pos: usize) -> (r: usize)
        requires
            pos <= self.buffer@.len(),
        ensures
            r == prev_boundary(self.buffer@, pos as int),
            r <= pos,
            pos == 0 ==> r == 0,
    {
        if pos == 0 {
            return 0;
        }
        let s = &self.buffer;
        let mut p: usize = pos - 1;
        while p > 0 && s[p] == ' '
            invariant
                p <= pos - 1,
                pos <= s@.len(),
                skip_spaces_left(s@, p as int) == skip_spaces_left(s@, pos - 1),
            decreases p,
        {
            p = p - 1;
        }
        while p > 0 && s[p - 1] != ' '
            invariant
                p <= pos,
                pos <= s@.len(),
                skip_word_left(s@, p as int) == skip_word_left(
                    s@,
                    skip_spaces_left(s@, pos - 1),
                ),
            decreases p,
        {
            p = p - 1;
        }
        p
    }

    /// The offset past the word at `pos` and the spaces after it (`len` at
    /// the right edge).
    pub fn next_word_boundary(&self, pos: usize) -> (r: usize)
        requires
            pos <= self.buffer@.len(),
        ensures
            r == next_boundary(self.buffer@, pos as int),
            pos <= r <= self.buffer@.len(),
            pos == self.buffer@.len() ==> r == pos,
    {
        let s = &self.buffer;
        let len = s.len();
        let mut p: usize = pos;
        while p < len && s[p] != ' '
            invariant
                pos <= p <= len,
                len == s@.len(),
                skip_word_right(s@, p as int) == skip_word_right(s@, pos as int),
            decreases len - p,
        {
            p = p + 1;
        }
        while p < len && s[p] == ' '
            invariant
                pos <= p <= len,
                len == s@.len(),
                skip_spaces_right(s@, p as int) == skip_spaces_right(
                    s@,
                    skip_word_right(s@, pos as int),
                ),
            decreases len - p,
        {
            p = p + 1;
        }
        p
    }

    /// Removes the span from the previous word boundary up to the cursor and
    /// moves the cursor to that boundary; a no-op when the boundary is the
    /// cursor itself.
    pub fn delete_word_backward(&mut self)
        requires
            old(self).wf(),
        ensures
            deleted_word_backward(*old(self), *final(self)),
            final(self).wf(),
    {
        let start = self.prev_word_boundary(self.cursor);
        let cursor = self.cursor;
        if start < cursor {
            remove_range(&mut self.buffer, start, cursor);
            self.cursor = start;
        } else {
            proof {
                assert(old(self).buffer@.subrange(0, start as int) + old(self).buffer@.subrange(
                    cursor as int,
                    old(self).buffer@.len() as int,
                ) =~= old(self).buffer@);
            }
        }
    }

    /// From the cursor, skips a run of spaces, then removes the following
    /// run of non-space characters; the cursor does not move.
    pub fn delete_word_forward(&mut self)
        requires
            old(self).wf(),
        ensures
            deleted_word_forward(*old(self), *final(self)),
            final(self).wf(),
    {
        let s = &self.buffer;
        let len = s.len();
        let mut p: usize = self.cursor;
        while p < len && s[p] == ' '
            invariant
                self.cursor <= p <= len,
                len == s@.len(),
                skip_spaces_right(s@, p as int) == skip_spaces_right(s@, self.cursor as int),
            decreases len - p,
        {
            p = p + 1;
        }
        let word_start = p;
        while p < len && s[p] != ' '
            invariant
                word_start <= p <= len,
                len == s@.len(),
                skip_word_right(s@, p as int) == skip_word_right(s@, word_start as int),
            decreases len - p,
        {
            p = p + 1;
        }
        let ghost orig = self.buffer@;
        remove_range(&mut self.buffer, word_start, p);
        proof {
            assert(self.cursor <= skip_spaces_right(orig, self.cursor as int));
        }
    }

    /// Moves the cursor one character left, clamped at 0.
    pub fn move_left(&mut self)
        requires
            old(self).wf(),
        ensures
            moved_left(*old(self), *final(self)),
            final(self).wf(),
    {
        if self.cursor > 0 {
            self.cursor = self.cursor - 1;
        }
    }

    /// Moves the cursor one character right, clamped at the end.
    pub fn move_right(&mut self)
        requires
            old(self).wf(),
        ensures
            moved_right(*old(self), *final(self)),
            final(self).wf(),
    {
        if self.cursor < self.buffer.len() {
            self.cursor = self.cursor + 1;
        }
    }

    /// Jumps to the start of the line.
    pub fn move_home(&mut self)
        ensures
            moved_home(*old(self), *final(self)),
            final(self).wf(),
    {
        self.cursor = 0;
    }

    /// Jumps to the end of the line.
    pub fn move_end(&mut self)
        ensures
            moved_end(*old(self), *final(self)),
            final(self).wf(),
    {
        self.cursor = self.buffer.len();
    }

    /// Jumps to the previous word boundary.
    pub fn move_word_left(&mut self)
        requires
            old(self).wf(),
        ensures
            moved_word_left(*old(self), *final(self)),
            final(self).wf(),
    {
        self.cursor = self.prev_word_boundary(self.cursor);
    }

    /// Jumps to the next word boundary.
    pub fn move_word_right(&mut self)
        requires
            old(self).wf(),
        ensures
            moved_word_right(*old(self), *final(self)),
            final(self).wf(),
    {
        self.cursor = self.next_word_boundary(self.cursor);
    }
}

} // verus!
