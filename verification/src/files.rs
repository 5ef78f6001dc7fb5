//! The point-in-time snapshot of changed files the commit flow reviews:
//! each path with its status and whether it is currently staged.
//!
//! The staged flags are mutated only through explicit stage/unstage side
//! effects reported back by the version-control collaborator; the paths and
//! statuses themselves are frozen at startup.

use vstd::pervasive::VecAdditionalExecFns;
use vstd::prelude::*;

verus! {

/// What happened to a changed file.
#[derive(Clone, Copy, Debug, PartialEq, Eq, Structural)]
pub enum FileStatus {
    Added,
    Modified,
    Deleted,
}

/// The one-letter indicator of a status.
pub open spec fn status_letter(s: FileStatus) -> Seq<char> {
    match s {
        FileStatus::Added => seq!['A'],
        FileStatus::Modified => seq!['M'],
        FileStatus::Deleted => seq!['D'],
    }
}

impl FileStatus {
    /// The one-letter indicator shown beside the file name.
    pub fn as_str(&self) -> (r: &'static str)
        ensures
            r@ == status_letter(*self),
    {
        match self {
            FileStatus::Added => {
                proof {
                    reveal_strlit("A");
                }
                "A"
            },
            FileStatus::Modified => {
                proof {
                    reveal_strlit("M");
                }
                "M"
            },
            FileStatus::Deleted => {
                proof {
                    reveal_strlit("D");
                }
                "D"
            },
        }
    }

    /// The status of an entry from the collaborator's change report: a new
    /// file counts as added, else a deleted one as deleted, else it was
    /// modified.
    pub fn classify(is_new: bool, is_deleted: bool) -> (r: FileStatus)
        ensures
            r == if is_new {
                FileStatus::Added
            } else if is_deleted {
                FileStatus::Deleted
            } else {
                FileStatus::Modified
            },
    {
        if is_new {
            FileStatus::Added
        } else if is_deleted {
            FileStatus::Deleted
        } else {
            FileStatus::Modified
        }
    }
}

/// One changed file of the snapshot.
pub struct FileEntry {
    pub path: Vec<char>,
    pub status: FileStatus,
    pub staged: bool,
}

/// The ordered snapshot of changed files.
pub struct FileSet {
    pub entries: Vec<FileEntry>,
}

impl FileSet {
    /// The paths of the snapshot, in order.
    pub open spec fn paths(self) -> Seq<Seq<char>> {
        Seq::new(self.entries@.len(), |i: int| self.entries@[i].path@)
    }

    /// At least one file is staged.
    pub open spec fn any_staged(self) -> bool {
        exists|i: int| 0 <= i < self.entries@.len() && self.entries@[i].staged
    }

    /// An empty snapshot.
    pub fn new() -> (s: FileSet)
        ensures
            s.entries@.len() == 0,
    {
        FileSet { entries: Vec::new() }
    }

    /// Whether any file is staged; confirming the review is rejected while
    /// this is false.
    pub fn has_staged(&self) -> (r: bool)
        ensures
            r == self.any_staged(),
    {
        let mut i: usize = 0;
        while i < self.entries.len()
            invariant
                i <= self.entries@.len(),
                forall|k: int| 0 <= k < i ==> !self.entries@[k].staged,
            decreases self.entries@.len() - i,
        {
            if self.entries[i].staged {
                return true;
            }
            i = i + 1;
        }
        false
    }

    /// Flips the staged flag of entry `i` when the collaborator's stage or
    /// unstage call succeeded; a failed call leaves the set unchanged.
    pub fn apply_toggle(&mut self, i: usize, success: bool)
        requires
            i < old(self).entries@.len(),
        ensures
            final(self).entries@.len() == old(self).entries@.len(),
            success ==> {
                &&& forall|k: int|
                    0 <= k < old(self).entries@.len() && k != i ==> final(self).entries@[k] == old(
                        self,
                    ).entries@[k]
                &&& final(self).entries@[i as int].path@ == old(self).entries@[i as int].path@
                &&& final(self).entries@[i as int].status == old(self).entries@[i as int].status
                &&& final(self).entries@[i as int].staged == !old(self).entries@[i as int].staged
            },
            !success ==> *final(self) == *old(self),
    {
        if success {
            let staged = self.entries[i].staged;
            let path = crate::text::clone_chars(&self.entries[i].path);
            let status = self.entries[i].status;
            self.entries.set(i, FileEntry { path, status, staged: !staged });
        }
    }

    /// A copy of every entry, in order: the render snapshot of the file
    /// pane.
    pub fn clone_entries(&self) -> (r: Vec<FileEntry>)
        ensures
            r@.len() == self.entries@.len(),
            forall|k: int|
                #![trigger r@[k]]
                0 <= k < self.entries@.len() ==> r@[k].path@ == self.entries@[k].path@
                    && r@[k].status == self.entries@[k].status && r@[k].staged
                    == self.entries@[k].staged,
    {
        let mut r: Vec<FileEntry> = Vec::new();
        let mut i: usize = 0;
        while i < self.entries.len()
            invariant
                i <= self.entries@.len(),
                r@.len() == i,
                forall|k: int|
                    #![trigger r@[k]]
                    0 <= k < i ==> r@[k].path@ == self.entries@[k].path@ && r@[k].status
                        == self.entries@[k].status && r@[k].staged == self.entries@[k].staged,
            decreases self.entries@.len() - i,
        {
            let e = &self.entries[i];
            let ghost prev = r@;
            r.push(
                FileEntry {
                    path: crate::text::clone_chars(&e.path),
                    status: e.status,
                    staged: e.staged,
                },
            );
            proof {
                assert(forall|k: int| 0 <= k < i ==> r@[k] == prev[k]);
                assert(r@[i as int].path@ == self.entries@[i as int].path@);
            }
            i = i + 1;
        }
        r
    }

    /// A copy of the path of entry `i`, handed to the collaborator for
    /// stage, unstage and diff calls.
    pub fn path_of(&self, i: usize) -> (r: Vec<char>)
        requires
            i < self.entries@.len(),
        ensures
            r@ == self.entries@[i as int].path@,
    {
        crate::text::clone_chars(&self.entries[i].path)
    }
}

} // verus!
