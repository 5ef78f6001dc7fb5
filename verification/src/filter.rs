//! A list of fixed candidates narrowed live by a free-text filter, with a
//! wrapping selection: the prefix pickers of the wizard.
//!
//! The filtered view is the subsequence of candidates whose lowercase form
//! contains the lowercase filter, in the candidates' own order; it is
//! recomputed on demand and never cached. The selection always lies inside
//! `0 ..< max(1, |filtered|)`.

use vstd::prelude::*;

use crate::text::{clone_chars, contains_ci, matches_filter, views_of};
use crate::WizardError;

verus! {

/// The candidates whose lowercase form contains the lowercase filter, in
/// their original order.
pub open spec fn filtered_spec(cands: Seq<Seq<char>>, filter: Seq<char>) -> Seq<Seq<char>>
    decreases cands.len(),
{
    if cands.len() == 0 {
        Seq::empty()
    } else {
        let rest = filtered_spec(cands.drop_last(), filter);
        if matches_filter(cands.last(), filter) {
            rest.push(cands.last())
        } else {
            rest
        }
    }
}

/// The indices of the candidates that the filter keeps, in increasing order.
pub open spec fn kept_indices(cands: Seq<Seq<char>>, filter: Seq<char>) -> Seq<int>
    decreases cands.len(),
{
    if cands.len() == 0 {
        Seq::empty()
    } else {
        let rest = kept_indices(cands.drop_last(), filter);
        if matches_filter(cands.last(), filter) {
            rest.push(cands.len() - 1)
        } else {
            rest
        }
    }
}

/// An empty filter keeps every candidate: `filtered(cands, "") == cands`.
pub proof fn lemma_filter_empty(cands: Seq<Seq<char>>)
    ensures
        filtered_spec(cands, Seq::<char>::empty()) == cands,
    decreases cands.len(),
{
    let empty = Seq::<char>::empty();
    if cands.len() == 0 {
        assert(filtered_spec(cands, empty) =~= cands);
    } else {
        lemma_filter_empty(cands.drop_last());
        assert(crate::text::lower_seq(empty) =~= empty);
        let lowered = crate::text::lower_seq(cands.last());
        assert(lowered.subrange(0, 0) =~= empty);
        assert(crate::text::matches_at(lowered, empty, 0));
        assert(filtered_spec(cands, empty) =~= cands);
    }
}

/// The filtered view is a subsequence of the candidates preserving their
/// original order: it reads off the candidates at `kept_indices`, which are
/// strictly increasing, and each kept candidate matches the filter.
pub proof fn lemma_filtered_is_subsequence(cands: Seq<Seq<char>>, filter: Seq<char>)
    ensures
        filtered_spec(cands, filter).len() == kept_indices(cands, filter).len(),
        forall|j: int|
            0 <= j < kept_indices(cands, filter).len() ==> {
                let k = #[trigger] kept_indices(cands, filter)[j];
                &&& 0 <= k < cands.len()
                &&& filtered_spec(cands, filter)[j] == cands[k]
                &&& matches_filter(cands[k], filter)
            },
        forall|j1: int, j2: int|
            0 <= j1 < j2 < kept_indices(cands, filter).len() ==> kept_indices(cands, filter)[j1]
                < kept_indices(cands, filter)[j2],
    decreases cands.len(),
{
    if cands.len() > 0 {
        lemma_filtered_is_subsequence(cands.drop_last(), filter);
    }
}

/// A fixed, ordered candidate set, a free-text filter and a selected index
/// into the filtered view.
pub struct FilterableList {
    pub candidates: Vec<Vec<char>>,
    pub filter: Vec<char>,
    pub selected: usize,
}

/// `post` is `pre` with the selection one up, wrapping from the top to the
/// bottom of the filtered view (a no-op when that view is empty).
pub open spec fn moved_up(pre: FilterableList, post: FilterableList) -> bool {
    &&& post.candidates == pre.candidates
    &&& post.filter == pre.filter
    &&& post.selected == if pre.filtered_view().len() == 0 {
        0int
    } else if pre.selected > 0 {
        pre.selected - 1
    } else {
        pre.filtered_view().len() - 1
    }
}

/// `post` is `pre` with the selection one down, wrapping from the bottom to
/// the top of the filtered view (a no-op when that view is empty).
pub open spec fn moved_down(pre: FilterableList, post: FilterableList) -> bool {
    &&& post.candidates == pre.candidates
    &&& post.filter == pre.filter
    &&& post.selected == if pre.filtered_view().len() == 0 {
        0int
    } else if pre.selected + 1 < pre.filtered_view().len() {
        pre.selected + 1
    } else {
        0int
    }
}

/// `post` is `pre` with `c` appended to the filter and the selection back on
/// top.
pub open spec fn pushed_filter(pre: FilterableList, c: char, post: FilterableList) -> bool {
    &&& post.candidates == pre.candidates
    &&& post.filter@ == pre.filter@.push(c)
    &&& post.selected == 0
}

/// `post` is `pre` with the last filter character removed and the selection
/// back on top (a no-op on an empty filter).
pub open spec fn popped_filter(pre: FilterableList, post: FilterableList) -> bool {
    if pre.filter@.len() == 0 {
        post == pre
    } else {
        &&& post.candidates == pre.candidates
        &&& post.filter@ == pre.filter@.drop_last()
        &&& post.selected == 0
    }
}

impl FilterableList {
    /// The current filtered view, as a sequence of character sequences.
    pub open spec fn filtered_view(self) -> Seq<Seq<char>> {
        filtered_spec(views_of(self.candidates@), self.filter@)
    }

    /// The selection lies in `0 ..< max(1, |filtered|)`.
    pub open spec fn wf(self) -> bool {
        if self.filtered_view().len() == 0 {
            self.selected == 0
        } else {
            self.selected < self.filtered_view().len()
        }
    }

    /// A list over `candidates` with an empty filter and the selection on
    /// `selected` (0 when out of range, as for an empty candidate set).
    pub fn new(candidates: Vec<Vec<char>>, selected: usize) -> (l: FilterableList)
        requires
            selected == 0 || selected < candidates@.len(),
        ensures
            l.candidates == candidates,
            l.filter@ == Seq::<char>::empty(),
            l.selected == selected,
            l.wf(),
    {
        proof {
            lemma_filter_empty(views_of(candidates@));
        }
        FilterableList { candidates, filter: Vec::new(), selected }
    }

    /// The filtered view, recomputed from the current filter.
    pub fn filtered(&self) -> (r: Vec<Vec<char>>)
        ensures
            views_of(r@) == self.filtered_view(),
            r@.len() == self.filtered_view().len(),
    {
        let mut out: Vec<Vec<char>> = Vec::new();
        let mut i: usize = 0;
        while i < self.candidates.len()
            invariant
                i <= self.candidates@.len(),
                views_of(out@) == filtered_spec(
                    views_of(self.candidates@).subrange(0, i as int),
                    self.filter@,
                ),
            decreases self.candidates@.len() - i,
        {
            let ghost pre = views_of(self.candidates@).subrange(0, i as int);
            let ghost post = views_of(self.candidates@).subrange(0, i + 1 as int);
            proof {
                assert(post.drop_last() =~= pre);
                assert(post.last() == self.candidates@[i as int]@);
            }
            if contains_ci(&self.candidates[i], &self.filter) {
                let c = clone_chars(&self.candidates[i]);
                out.push(c);
                proof {
                    assert(views_of(out@) =~= filtered_spec(post, self.filter@));
                }
            } else {
                proof {
                    assert(views_of(out@) =~= filtered_spec(post, self.filter@));
                }
            }
            i = i + 1;
        }
        proof {
            assert(views_of(self.candidates@).subrange(0, self.candidates@.len() as int)
                =~= views_of(self.candidates@));
        }
        out
    }

    /// Replaces the filter and resets the selection to the top.
    pub fn set_filter(&mut self, filter: Vec<char>)
        ensures
            final(self).candidates == old(self).candidates,
            final(self).filter@ == filter@,
            final(self).selected == 0,
            final(self).wf(),
    {
        self.filter = filter;
        self.selected = 0;
    }

    /// Appends one character to the filter and resets the selection.
    pub fn push_filter(&mut self, c: char)
        ensures
            pushed_filter(*old(self), c, *final(self)),
            final(self).wf(),
    {
        self.filter.push(c);
        self.selected = 0;
    }

    /// Removes the last filter character and resets the selection; a no-op
    /// on an empty filter.
    pub fn pop_filter(&mut self)
        requires
            old(self).wf(),
        ensures
            popped_filter(*old(self), *final(self)),
            final(self).wf(),
    {
        if self.filter.len() > 0 {
            self.filter.pop();
            self.selected = 0;
        }
    }

    /// Moves the selection one up, wrapping from the top to the bottom; a
    /// no-op when the filtered view is empty.
    pub fn move_up(&mut self)
        requires
            old(self).wf(),
        ensures
            moved_up(*old(self), *final(self)),
            final(self).wf(),
    {
        let f = self.filtered();
        if self.selected > 0 {
            self.selected = self.selected - 1;
        } else {
            if f.len() > 0 {
                self.selected = f.len() - 1;
            }
        }
    }

    /// Moves the selection one down, wrapping from the bottom to the top; a
    /// no-op when the filtered view is empty.
    pub fn move_down(&mut self)
        requires
            old(self).wf(),
        ensures
            moved_down(*old(self), *final(self)),
            final(self).wf(),
    {
        let f = self.filtered();
        if f.len() > 0 {
            if self.selected + 1 < f.len() {
                self.selected = self.selected + 1;
            } else {
                self.selected = 0;
            }
        }
    }

    /// The selected candidate of the filtered view, or `SelectionEmpty` if
    /// and only if the filtered view has no elements.
    pub fn confirm(&self) -> (r: Result<Vec<char>, WizardError>)
        requires
            self.wf(),
        ensures
            match r {
                Ok(c) => self.filtered_view().len() > 0 && c@ == self.filtered_view()[
                    self.selected as int
                ],
                Err(e) => self.filtered_view().len() == 0 && e == WizardError::SelectionEmpty,
            },
    {
        let f = self.filtered();
        if f.len() == 0 {
            Err(WizardError::SelectionEmpty)
        } else {
            Ok(clone_chars(&f[self.selected]))
        }
    }
}

} // verus!
