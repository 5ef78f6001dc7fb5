//! The wizard's top-level state: the current mode, the sub-components, the
//! staged-file snapshot and the outcome flags.
//!
//! Three independent flows share the machine: reviewing and committing
//! staged files, creating a branch, and searching for a branch to check
//! out. The entry mode is picked once at construction; modes never cross
//! from one flow into another. `should_quit` is terminal, and
//! `should_proceed` is set only on a deliberate confirming transition.

use vstd::prelude::*;

use crate::branch::BranchSelection;
use crate::config::Config;
use crate::files::FileSet;
use crate::filter::FilterableList;
use crate::text::{clone_chars, first_index_of, views_of};
use crate::text_field::TextField;
use crate::viewport::{DiffViewport, DEFAULT_VISIBLE_ROWS};

verus! {

/// The current step of the wizard; it decides what keys do and what the
/// view shows.
#[derive(Clone, Copy, Debug, PartialEq, Eq, Structural)]
pub enum AppState {
    StagedFilesReview,
    PrefixSelection,
    MessageInput,
    BranchPrefixSelection,
    BranchStoryInput,
    BranchNameInput,
    BranchSearchInput,
    BranchSearchBrowse,
}

/// The three top-level flows a run can be started for.
#[derive(Clone, Copy, Debug, PartialEq, Eq, Structural)]
pub enum WizardOp {
    Commit,
    CreateBranch,
    SearchBranch,
}

/// Which flow a mode belongs to; a run never leaves its flow.
pub open spec fn flow_of(s: AppState) -> WizardOp {
    match s {
        AppState::StagedFilesReview => WizardOp::Commit,
        AppState::PrefixSelection => WizardOp::Commit,
        AppState::MessageInput => WizardOp::Commit,
        AppState::BranchPrefixSelection => WizardOp::CreateBranch,
        AppState::BranchStoryInput => WizardOp::CreateBranch,
        AppState::BranchNameInput => WizardOp::CreateBranch,
        AppState::BranchSearchInput => WizardOp::SearchBranch,
        AppState::BranchSearchBrowse => WizardOp::SearchBranch,
    }
}

/// The values the command line may pre-fill, letting the wizard skip the
/// corresponding prompts.
pub struct Prefill {
    pub prefix: Option<Vec<char>>,
    pub message: Option<Vec<char>>,
    pub no_push: bool,
    pub branch_prefix: Option<Vec<char>>,
    pub story: Option<Vec<char>>,
    pub branch_name: Option<Vec<char>>,
}

impl Prefill {
    /// Nothing pre-filled.
    pub fn none() -> (p: Prefill)
        ensures
            p.prefix is None,
            p.message is None,
            !p.no_push,
            p.branch_prefix is None,
            p.story is None,
            p.branch_name is None,
    {
        Prefill {
            prefix: None,
            message: None,
            no_push: false,
            branch_prefix: None,
            story: None,
            branch_name: None,
        }
    }
}

/// The whole wizard state: mode, sub-components, snapshot and outcome.
pub struct App {
    pub state: AppState,
    pub should_quit: bool,
    pub should_proceed: bool,
    pub cursor_visible: bool,
    pub no_push: bool,
    // commit flow
    pub files: FileSet,
    pub selected_file_index: usize,
    pub diff: DiffViewport,
    pub prefixes: FilterableList,
    pub prefix: Option<Vec<char>>,
    pub message_field: TextField,
    pub message: Option<Vec<char>>,
    // branch-create flow
    pub branch_prefixes: FilterableList,
    pub branch_prefix: Option<Vec<char>>,
    pub story_field: TextField,
    pub story_supplied: bool,
    pub name_field: TextField,
    // branch-search flow
    pub all_branches: Vec<Vec<char>>,
    pub search: BranchSelection,
    // configuration snapshot
    pub story_prefix: Option<Vec<char>>,
}

impl App {
    /// Every sub-component is well formed and the file selection lies
    /// inside the snapshot.
    pub open spec fn wf(self) -> bool {
        &&& self.prefixes.wf()
        &&& self.branch_prefixes.wf()
        &&& self.message_field.wf()
        &&& self.story_field.wf()
        &&& self.name_field.wf()
        &&& self.search.wf()
        &&& if self.files.entries@.len() == 0 {
            self.selected_file_index == 0
        } else {
            self.selected_file_index < self.files.entries@.len()
        }
    }

    /// The entry mode of `op`, skipping prompts whose value the command
    /// line pre-filled.
    pub open spec fn entry_state(op: WizardOp, seeds: Prefill) -> AppState {
        match op {
            WizardOp::Commit => AppState::StagedFilesReview,
            WizardOp::CreateBranch => if seeds.branch_prefix is Some {
                if seeds.story is Some {
                    AppState::BranchNameInput
                } else {
                    AppState::BranchStoryInput
                }
            } else {
                AppState::BranchPrefixSelection
            },
            WizardOp::SearchBranch => AppState::BranchSearchInput,
        }
    }

    /// Builds the wizard over a configuration snapshot, command-line
    /// pre-fills, the changed-file snapshot and the branch list.
    pub fn new(
        config: Config,
        op: WizardOp,
        seeds: Prefill,
        files: FileSet,
        all_branches: Vec<Vec<char>>,
    ) -> (app: App)
        ensures
            app.wf(),
            app.state == App::entry_state(op, seeds),
            !app.should_quit,
            !app.should_proceed,
            app.cursor_visible,
            app.no_push == (seeds.no_push || config.auto_push == Some(false)),
            app.files == files,
            app.selected_file_index == 0,
            app.diff.content@.len() == 0,
            app.diff.scroll_offset == 0,
            app.diff.visible_rows == DEFAULT_VISIBLE_ROWS,
            app.prefixes.candidates == config.commit_prefixes,
            app.prefixes.filter@.len() == 0,
            match config.default_commit_prefix {
                Some(d) => first_index_of(
                    views_of(config.commit_prefixes@),
                    d@,
                    app.prefixes.selected as int,
                ),
                None => app.prefixes.selected == 0,
            },
            app.branch_prefixes.candidates == config.branch_prefixes,
            app.branch_prefixes.filter@.len() == 0,
            app.branch_prefixes.selected == 0,
            app.prefix == seeds.prefix,
            app.message == seeds.message,
            app.message_field.buffer@ == match seeds.message {
                Some(m) => m@,
                None => Seq::<char>::empty(),
            },
            app.message_field.cursor == app.message_field.buffer@.len(),
            app.branch_prefix == seeds.branch_prefix,
            app.story_field.buffer@ == match seeds.story {
                Some(s) => s@,
                None => Seq::<char>::empty(),
            },
            app.story_field.cursor == app.story_field.buffer@.len(),
            app.story_supplied == (seeds.story is Some),
            app.name_field.buffer@ == match seeds.branch_name {
                Some(n) => n@,
                None => Seq::<char>::empty(),
            },
            app.name_field.cursor == app.name_field.buffer@.len(),
            app.all_branches == all_branches,
            app.search.query.buffer@.len() == 0,
            app.search.matches@.len() == 0,
            app.search.selected == 0,
            app.search.scroll_offset == 0,
            !app.search.search_performed,
            app.story_prefix == config.story_prefix,
    {
        let state = match op {
            WizardOp::Commit => AppState::StagedFilesReview,
            WizardOp::CreateBranch => {
                if seeds.branch_prefix.is_some() {
                    if seeds.story.is_some() {
                        AppState::BranchNameInput
                    } else {
                        AppState::BranchStoryInput
                    }
                } else {
                    AppState::BranchPrefixSelection
                }
            },
            WizardOp::SearchBranch => AppState::BranchSearchInput,
        };
        let no_push = seeds.no_push || match config.auto_push {
            Some(b) => !b,
            None => false,
        };
        let default_idx = match &config.default_commit_prefix {
            Some(d) => crate::text::index_of_name(&config.commit_prefixes, d),
            None => 0,
        };
        let prefixes = FilterableList::new(config.commit_prefixes, default_idx);
        let branch_prefixes = FilterableList::new(config.branch_prefixes, 0);
        let message_content = match &seeds.message {
            Some(m) => clone_chars(m),
            None => Vec::new(),
        };
        let story_content = match &seeds.story {
            Some(s) => clone_chars(s),
            None => Vec::new(),
        };
        let name_content = match &seeds.branch_name {
            Some(n) => clone_chars(n),
            None => Vec::new(),
        };
        let story_supplied = seeds.story.is_some();
        App {
            state,
            should_quit: false,
            should_proceed: false,
            cursor_visible: true,
            no_push,
            files,
            selected_file_index: 0,
            diff: DiffViewport::new(),
            prefixes,
            prefix: seeds.prefix,
            message_field: TextField::new(message_content),
            message: seeds.message,
            branch_prefixes,
            branch_prefix: seeds.branch_prefix,
            story_field: TextField::new(story_content),
            story_supplied,
            name_field: TextField::new(name_content),
            all_branches,
            search: BranchSelection::new(DEFAULT_VISIBLE_ROWS),
            story_prefix: config.story_prefix,
        }
    }

    /// Flips the cursor-blink flag; the cosmetic tick of the event loop's
    /// timeout, never a state change.
    pub fn toggle_cursor(&mut self)
        ensures
            (*final(self) == App { cursor_visible: !old(self).cursor_visible, ..*old(self) }),
    {
        self.cursor_visible = !self.cursor_visible;
    }

    /// Applies the outcome of the stage/unstage side effect requested for
    /// file `i`: the staged flag flips only when the collaborator call
    /// succeeded, and a failure leaves the set unchanged.
    pub fn apply_stage_toggle(&mut self, i: usize, success: bool)
        requires
            old(self).wf(),
            i < old(self).files.entries@.len(),
        ensures
            (*final(self) == App { files: final(self).files, ..*old(self) }),
            final(self).files.entries@.len() == old(self).files.entries@.len(),
            success ==> {
                &&& forall|k: int|
                    0 <= k < old(self).files.entries@.len() && k != i
                        ==> final(self).files.entries@[k] == old(self).files.entries@[k]
                &&& final(self).files.entries@[i as int].path@ == old(self).files.entries@[
                    i as int
                ].path@
                &&& final(self).files.entries@[i as int].status == old(self).files.entries@[
                    i as int
                ].status
                &&& final(self).files.entries@[i as int].staged == !old(self).files.entries@[
                    i as int
                ].staged
            },
            !success ==> *final(self) == *old(self),
            final(self).wf(),
    {
        self.files.apply_toggle(i, success);
    }
}

} // verus!
