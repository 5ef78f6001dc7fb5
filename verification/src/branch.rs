//! Branch search and creation: the case-insensitive matcher with its
//! remote-tracking exclusion rule, the two-phase search selection (type a
//! query, submit, browse frozen results), checkout resolution for a chosen
//! match, and the branch-name builder.

use vstd::prelude::*;

use crate::text::{
    clone_chars, contains_ci, contains_name, has_name, has_prefix, lower_seq, matches_filter,
    push_chars, starts_with_ci, to_chars, views_of,
};
use crate::text_field::TextField;

verus! {

/// The branch-name prefix denoting a reference mirrored from a remote.
pub open spec fn remote_prefix() -> Seq<char> {
    seq!['o', 'r', 'i', 'g', 'i', 'n', '/']
}

/// `b` lies under the remote-tracking namespace (case-insensitively).
pub open spec fn is_remote(b: Seq<char>) -> bool {
    has_prefix(lower_seq(b), remote_prefix())
}

/// The matcher keeps `b` for query `q`: a case-insensitive substring match,
/// except that a remote-tracking branch is kept only when the query itself
/// targets the remote namespace.
pub open spec fn search_keeps(b: Seq<char>, q: Seq<char>) -> bool {
    matches_filter(b, q) && (is_remote(b) ==> is_remote(q))
}

/// The branches the matcher returns for `q`, in their original order.
pub open spec fn search_spec(branches: Seq<Seq<char>>, q: Seq<char>) -> Seq<Seq<char>>
    decreases branches.len(),
{
    if branches.len() == 0 {
        Seq::empty()
    } else {
        let rest = search_spec(branches.drop_last(), q);
        if search_keeps(branches.last(), q) {
            rest.push(branches.last())
        } else {
            rest
        }
    }
}

/// The executable remote-tracking prefix.
fn remote_prefix_chars() -> (r: Vec<char>)
    ensures
        r@ == remote_prefix(),
        lower_seq(r@) == remote_prefix(),
{
    let r = to_chars("origin/");
    proof {
        reveal_strlit("origin/");
        assert(r@ =~= remote_prefix());
        assert(lower_seq(r@) =~= remote_prefix());
    }
    r
}

/// Whether `b` lies under the remote-tracking namespace.
pub fn branch_is_remote(b: &Vec<char>) -> (r: bool)
    ensures
        r == is_remote(b@),
{
    let rp = remote_prefix_chars();
    starts_with_ci(b, &rp)
}

/// All branches matching `query`, case-insensitively and order-preserving,
/// excluding remote-tracking names unless the query targets the remote
/// namespace itself.
pub fn search(query: &Vec<char>, branches: &Vec<Vec<char>>) -> (r: Vec<Vec<char>>)
    ensures
        views_of(r@) == search_spec(views_of(branches@), query@),
{
    let query_remote = branch_is_remote(query);
    let mut out: Vec<Vec<char>> = Vec::new();
    let mut i: usize = 0;
    while i < branches.len()
        invariant
            i <= branches@.len(),
            query_remote == is_remote(query@),
            views_of(out@) == search_spec(views_of(branches@).subrange(0, i as int), query@),
        decreases branches@.len() - i,
    {
        let ghost pre = views_of(branches@).subrange(0, i as int);
        let ghost post = views_of(branches@).subrange(0, i + 1 as int);
        proof {
            assert(post.drop_last() =~= pre);
            assert(post.last() == branches@[i as int]@);
        }
        let keep = contains_ci(&branches[i], query) && (query_remote || !branch_is_remote(
            &branches[i],
        ));
        if keep {
            let b = clone_chars(&branches[i]);
            out.push(b);
            proof {
                assert(views_of(out@) =~= search_spec(post, query@));
            }
        } else {
            proof {
                assert(views_of(out@) =~= search_spec(post, query@));
            }
        }
        i = i + 1;
    }
    proof {
        assert(views_of(branches@).subrange(0, branches@.len() as int) =~= views_of(branches@));
    }
    out
}

/// What checking out a chosen match asks of the version-control
/// collaborator.
pub enum CheckoutAction {
    /// Check out an existing local branch of this name.
    Plain { name: Vec<char> },
    /// Create a local branch of this name tracking the remote one, then
    /// check it out.
    CreateTracking { local: Vec<char>, remote: Vec<char> },
}

/// Resolves a selected match: a remote-tracking name is checked out as the
/// stripped local name when that already exists, and otherwise asks for a
/// tracking branch; a local name is checked out as it is.
pub fn resolve_checkout(selected: &Vec<char>, local_branches: &Vec<Vec<char>>) -> (r:
    CheckoutAction)
    ensures
        ({
            let stripped = selected@.subrange(remote_prefix().len() as int, selected@.len() as int);
            if is_remote(selected@) {
                if contains_name(views_of(local_branches@), stripped) {
                    r matches CheckoutAction::Plain { name } && name@ == stripped
                } else {
                    r matches CheckoutAction::CreateTracking { local, remote } && local@ == stripped
                        && remote@ == selected@
                }
            } else {
                r matches CheckoutAction::Plain { name } && name@ == selected@
            }
        }),
{
    if branch_is_remote(selected) {
        let mut stripped: Vec<char> = Vec::new();
        let mut i: usize = 7;
        proof {
            assert(remote_prefix().len() == 7);
            assert(lower_seq(selected@).len() == selected@.len());
        }
        while i < selected.len()
            invariant
                7 <= i <= selected@.len(),
                stripped@ == selected@.subrange(7, i as int),
            decreases selected@.len() - i,
        {
            stripped.push(selected[i]);
            proof {
                assert(selected@.subrange(7, i + 1 as int) =~= selected@.subrange(7, i as int).push(
                    selected@[i as int],
                ));
            }
            i = i + 1;
        }
        if has_name(local_branches, &stripped) {
            CheckoutAction::Plain { name: stripped }
        } else {
            CheckoutAction::CreateTracking { local: stripped, remote: clone_chars(selected) }
        }
    } else {
        CheckoutAction::Plain { name: clone_chars(selected) }
    }
}

/// The frozen result of a submitted branch search, browsed with an
/// edge-clamped selection and a visible window kept by `scroll_offset`.
pub struct BranchSelection {
    pub query: TextField,
    pub matches: Vec<Vec<char>>,
    pub selected: usize,
    pub scroll_offset: usize,
    pub visible_rows: usize,
    pub search_performed: bool,
}

/// The window pulled so that the row `sel` lies inside the visible band
/// that starts at `scroll` and holds `rows` rows.
pub open spec fn adjusted_window(scroll: int, sel: int, rows: int) -> int {
    if sel < scroll {
        sel
    } else if rows > 0 && sel >= scroll + rows {
        sel + 1 - rows
    } else {
        scroll
    }
}

/// `post` is `pre` with the selection one up, stopping at the top edge, and
/// the window pulled along.
pub open spec fn sel_moved_up(pre: BranchSelection, post: BranchSelection) -> bool {
    &&& post.query == pre.query
    &&& post.matches == pre.matches
    &&& post.visible_rows == pre.visible_rows
    &&& post.search_performed == pre.search_performed
    &&& post.selected == if pre.selected > 0 {
        pre.selected - 1
    } else {
        0int
    }
    &&& post.scroll_offset == adjusted_window(
        pre.scroll_offset as int,
        post.selected as int,
        pre.visible_rows as int,
    )
}

/// `post` is `pre` with the selection one down, stopping at the bottom
/// edge, and the window pulled along.
pub open spec fn sel_moved_down(pre: BranchSelection, post: BranchSelection) -> bool {
    &&& post.query == pre.query
    &&& post.matches == pre.matches
    &&& post.visible_rows == pre.visible_rows
    &&& post.search_performed == pre.search_performed
    &&& post.selected == if pre.matches@.len() > 0 && pre.selected + 1 < pre.matches@.len() {
        pre.selected + 1
    } else {
        pre.selected as int
    }
    &&& post.scroll_offset == adjusted_window(
        pre.scroll_offset as int,
        post.selected as int,
        pre.visible_rows as int,
    )
}

/// `post` is `pre` with the matcher run over the query against `branches`:
/// results frozen, selection and window on top, the search marked as
/// performed, and `found` telling whether anything matched.
pub open spec fn submitted(
    pre: BranchSelection,
    branches: Seq<Seq<char>>,
    post: BranchSelection,
    found: bool,
) -> bool {
    &&& post.query == pre.query
    &&& post.visible_rows == pre.visible_rows
    &&& views_of(post.matches@) == search_spec(branches, pre.query.buffer@)
    &&& post.selected == 0
    &&& post.scroll_offset == 0
    &&& post.search_performed
    &&& found == (post.matches@.len() > 0)
}

impl BranchSelection {
    /// The selection stays inside the match list (or at 0 when there is
    /// none).
    pub open spec fn wf(self) -> bool {
        &&& self.query.wf()
        &&& if self.matches@.len() == 0 {
            self.selected == 0
        } else {
            self.selected < self.matches@.len()
        }
    }

    /// An empty search: no query typed, nothing submitted yet.
    pub fn new(visible_rows: usize) -> (s: BranchSelection)
        ensures
            s.query.buffer@ == Seq::<char>::empty(),
            s.matches@.len() == 0,
            s.selected == 0,
            s.scroll_offset == 0,
            s.visible_rows == visible_rows,
            !s.search_performed,
            s.wf(),
    {
        BranchSelection {
            query: TextField::empty(),
            matches: Vec::new(),
            selected: 0,
            scroll_offset: 0,
            visible_rows,
            search_performed: false,
        }
    }

    /// Runs the matcher over the query, freezing the results; the selection
    /// and the window go back to the top, and the search is marked as
    /// performed whether or not anything matched.
    pub fn submit(&mut self, branches: &Vec<Vec<char>>) -> (found: bool)
        requires
            old(self).wf(),
        ensures
            submitted(*old(self), views_of(branches@), *final(self), found),
            final(self).wf(),
    {
        let found_matches = search(&self.query.buffer, branches);
        let found = found_matches.len() > 0;
        self.matches = found_matches;
        self.selected = 0;
        self.scroll_offset = 0;
        self.search_performed = true;
        found
    }

    /// After a motion, pulls the window so that the selection stays inside
    /// the visible band.
    fn adjust_window(&mut self)
        ensures
            final(self).query == old(self).query,
            final(self).matches == old(self).matches,
            final(self).selected == old(self).selected,
            final(self).visible_rows == old(self).visible_rows,
            final(self).search_performed == old(self).search_performed,
            final(self).scroll_offset == if old(self).selected < old(self).scroll_offset {
                old(self).selected as int
            } else if old(self).visible_rows > 0 && old(self).selected >= old(self).scroll_offset
                + old(self).visible_rows {
                old(self).selected + 1 - old(self).visible_rows
            } else {
                old(self).scroll_offset as int
            },
    {
        if self.selected < self.scroll_offset {
            self.scroll_offset = self.selected;
        } else if self.visible_rows > 0 && self.selected - self.scroll_offset
            >= self.visible_rows {
            self.scroll_offset = self.selected - self.visible_rows + 1;
        }
    }

    /// Moves the selection one up, stopping at the top edge, and keeps it
    /// visible.
    pub fn move_up(&mut self)
        requires
            old(self).wf(),
        ensures
            sel_moved_up(*old(self), *final(self)),
            final(self).wf(),
    {
        if self.selected > 0 {
            self.selected = self.selected - 1;
        }
        self.adjust_window();
    }

    /// Moves the selection one down, stopping at the bottom edge, and keeps
    /// it visible.
    pub fn move_down(&mut self)
        requires
            old(self).wf(),
        ensures
            sel_moved_down(*old(self), *final(self)),
            final(self).wf(),
    {
        if self.matches.len() > 0 && self.selected + 1 < self.matches.len() {
            self.selected = self.selected + 1;
        }
        self.adjust_window();
    }

    /// The selected match, or `SelectionEmpty` if and only if the match
    /// list is empty.
    pub fn confirm(&self) -> (r: Result<Vec<char>, crate::WizardError>)
        requires
            self.wf(),
        ensures
            match r {
                Ok(c) => self.matches@.len() > 0 && c@ == views_of(self.matches@)[
                    self.selected as int
                ],
                Err(e) => self.matches@.len() == 0 && e == crate::WizardError::SelectionEmpty,
            },
    {
        if self.matches.len() == 0 {
            Err(crate::WizardError::SelectionEmpty)
        } else {
            Ok(clone_chars(&self.matches[self.selected]))
        }
    }
}

/// `prefix/name`, or `prefix/{story prefix}{story}/name` when a story
/// number was given.
pub fn build_branch_name(
    prefix: &Vec<char>,
    story: Option<&Vec<char>>,
    name: &Vec<char>,
    story_prefix: Option<&Vec<char>>,
) -> (r: Vec<char>)
    ensures
        r@ == match story {
            Some(s) => prefix@ + seq!['/'] + (match story_prefix {
                Some(p) => p@,
                None => Seq::<char>::empty(),
            }) + s@ + seq!['/'] + name@,
            None => prefix@ + seq!['/'] + name@,
        },
{
    let mut r = clone_chars(prefix);
    r.push('/');
    match story {
        Some(s) => {
            match story_prefix {
                Some(p) => {
                    push_chars(&mut r, p);
                },
                None => {},
            }
            push_chars(&mut r, s);
            r.push('/');
            push_chars(&mut r, name);
            proof {
                assert(r@ =~= prefix@ + seq!['/'] + (match story_prefix {
                    Some(p) => p@,
                    None => Seq::<char>::empty(),
                }) + s@ + seq!['/'] + name@);
            }
        },
        None => {
            push_chars(&mut r, name);
            proof {
                assert(r@ =~= prefix@ + seq!['/'] + name@);
            }
        },
    }
    r
}

} // verus!
