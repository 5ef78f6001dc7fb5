//! A scrolling viewport over a line-split text blob: the diff pane of the
//! staged-files review.
//!
//! Scrolling clamps the offset to `[0, max(0, lines - visible_rows)]`.
//! `set_visible_rows` records the row count of the last render pass and, by
//! design, does not itself move the offset: a viewport shrink takes effect
//! at the next explicit scroll.

use vstd::prelude::*;

use crate::diff::line_count;
use crate::text::clone_chars;

verus! {

/// The visible-row count a viewport starts with, before any render pass has
/// reported a real one; non-zero so that scrolling is meaningful from the
/// first key on.
pub const DEFAULT_VISIBLE_ROWS: usize = 10;

/// The largest admissible scroll offset for a text of `s` shown in `rows`
/// rows.
pub open spec fn max_scroll(s: Seq<char>, rows: nat) -> nat {
    if line_count(s) > rows {
        (line_count(s) - rows) as nat
    } else {
        0
    }
}

/// `x` clamped to `[0, hi]`.
pub open spec fn clamped(x: int, hi: int) -> int {
    if x < 0 {
        0
    } else if x > hi {
        hi
    } else {
        x
    }
}

/// A scroll offset and the last-known visible-row count over a text blob.
pub struct DiffViewport {
    pub content: Vec<char>,
    pub scroll_offset: usize,
    pub visible_rows: usize,
}

impl DiffViewport {
    /// An empty viewport at the top, with the default row count.
    pub fn new() -> (v: DiffViewport)
        ensures
            v.content@ == Seq::<char>::empty(),
            v.scroll_offset == 0,
            v.visible_rows == DEFAULT_VISIBLE_ROWS,
    {
        DiffViewport { content: Vec::new(), scroll_offset: 0, visible_rows: DEFAULT_VISIBLE_ROWS }
    }

    /// Replaces the content and jumps back to the top.
    pub fn set_content(&mut self, content: Vec<char>)
        ensures
            final(self).content@ == content@,
            final(self).scroll_offset == 0,
            final(self).visible_rows == old(self).visible_rows,
    {
        self.content = content;
        self.scroll_offset = 0;
    }

    /// Records the row count of the last render pass; the offset stays put
    /// until the next scroll.
    pub fn set_visible_rows(&mut self, rows: usize)
        ensures
            final(self).content == old(self).content,
            final(self).scroll_offset == old(self).scroll_offset,
            final(self).visible_rows == rows,
    {
        self.visible_rows = rows;
    }

    /// Moves the offset by `delta`, clamped to
    /// `[0, max(0, lines - visible_rows)]`.
    pub fn scroll(&mut self, delta: i32)
        ensures
            final(self).content == old(self).content,
            final(self).visible_rows == old(self).visible_rows,
            final(self).scroll_offset == clamped(
                old(self).scroll_offset + delta,
                max_scroll(old(self).content@, old(self).visible_rows as nat) as int,
            ),
            final(self).scroll_offset <= max_scroll(
                old(self).content@,
                old(self).visible_rows as nat,
            ),
    {
        let ls = crate::diff::split_lines(&self.content);
        let lines = ls.len();
        let max_off = if lines > self.visible_rows {
            lines - self.visible_rows
        } else {
            0
        };
        if delta >= 0 {
            let d = delta as usize;
            if self.scroll_offset >= max_off || d >= max_off - self.scroll_offset {
                self.scroll_offset = max_off;
            } else {
                self.scroll_offset = self.scroll_offset + d;
            }
        } else {
            let d = (-(delta as i64)) as usize;
            let target = if d >= self.scroll_offset {
                0
            } else {
                self.scroll_offset - d
            };
            self.scroll_offset = if target > max_off {
                max_off
            } else {
                target
            };
        }
    }

    /// A copy of the content, for rendering.
    pub fn content_copy(&self) -> (r: Vec<char>)
        ensures
            r@ == self.content@,
    {
        clone_chars(&self.content)
    }
}

} // verus!
