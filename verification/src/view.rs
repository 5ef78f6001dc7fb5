//! The render snapshot: a pure projection of the wizard state into the
//! values a renderer needs, so that the drawing code never touches the live
//! state.
//!
//! Which picker, editor and list the snapshot carries follows the current
//! mode; the fields of flows the mode does not belong to are left empty.

use vstd::prelude::*;

use crate::files::FileEntry;
use crate::filter::FilterableList;
use crate::state::{App, AppState};
use crate::text::{clone_chars, views_of};
use crate::text_field::TextField;

verus! {

/// A value snapshot of everything the renderer draws.
pub struct ViewModel {
    pub state: AppState,
    pub should_quit: bool,
    pub should_proceed: bool,
    pub cursor_visible: bool,
    // staged-files review
    pub files: Vec<FileEntry>,
    pub selected_file_index: usize,
    pub diff_text: Vec<char>,
    pub diff_scroll: usize,
    pub diff_total_lines: usize,
    // the prefix picker of the current mode, if it has one
    pub filter_text: Vec<char>,
    pub filtered_candidates: Vec<Vec<char>>,
    pub selected_candidate: usize,
    // the text field of the current mode, if it has one
    pub input_text: Vec<char>,
    pub input_cursor: usize,
    // branch search
    pub matches: Vec<Vec<char>>,
    pub match_selected: usize,
    pub match_scroll: usize,
    pub search_performed: bool,
}

/// The picker list the mode shows, if any.
pub open spec fn picker_of(app: App) -> Option<FilterableList> {
    match app.state {
        AppState::PrefixSelection => Some(app.prefixes),
        AppState::BranchPrefixSelection => Some(app.branch_prefixes),
        _ => None,
    }
}

/// The text field the mode edits, if any.
pub open spec fn editor_of(app: App) -> Option<TextField> {
    match app.state {
        AppState::MessageInput => Some(app.message_field),
        AppState::BranchStoryInput => Some(app.story_field),
        AppState::BranchNameInput => Some(app.name_field),
        AppState::BranchSearchInput => Some(app.search.query),
        _ => None,
    }
}

impl App {
    /// Projects the state into a render snapshot; the state itself is not
    /// touched.
    pub fn project(&self) -> (vm: ViewModel)
        requires
            self.wf(),
        ensures
            vm.state == self.state,
            vm.should_quit == self.should_quit,
            vm.should_proceed == self.should_proceed,
            vm.cursor_visible == self.cursor_visible,
            vm.files@.len() == self.files.entries@.len(),
            forall|k: int|
                #![trigger vm.files@[k]]
                0 <= k < self.files.entries@.len() ==> vm.files@[k].path@
                    == self.files.entries@[k].path@ && vm.files@[k].status
                    == self.files.entries@[k].status && vm.files@[k].staged
                    == self.files.entries@[k].staged,
            vm.selected_file_index == self.selected_file_index,
            vm.diff_text@ == self.diff.content@,
            vm.diff_scroll == self.diff.scroll_offset,
            vm.diff_total_lines == crate::diff::line_count(self.diff.content@),
            match picker_of(*self) {
                Some(p) => vm.filter_text@ == p.filter@ && views_of(vm.filtered_candidates@)
                    == p.filtered_view() && vm.selected_candidate == p.selected,
                None => vm.filter_text@.len() == 0 && vm.filtered_candidates@.len() == 0
                    && vm.selected_candidate == 0,
            },
            match editor_of(*self) {
                Some(f) => vm.input_text@ == f.buffer@ && vm.input_cursor == f.cursor,
                None => vm.input_text@.len() == 0 && vm.input_cursor == 0,
            },
            views_of(vm.matches@) == views_of(self.search.matches@),
            vm.match_selected == self.search.selected,
            vm.match_scroll == self.search.scroll_offset,
            vm.search_performed == self.search.search_performed,
    {
        let (filter_text, filtered_candidates, selected_candidate): (
            Vec<char>,
            Vec<Vec<char>>,
            usize,
        ) = match self.state {
            AppState::PrefixSelection => (
                clone_chars(&self.prefixes.filter),
                self.prefixes.filtered(),
                self.prefixes.selected,
            ),
            AppState::BranchPrefixSelection => (
                clone_chars(&self.branch_prefixes.filter),
                self.branch_prefixes.filtered(),
                self.branch_prefixes.selected,
            ),
            _ => (Vec::new(), Vec::new(), 0),
        };
        let (input_text, input_cursor): (Vec<char>, usize) = match self.state {
            AppState::MessageInput => (
                clone_chars(&self.message_field.buffer),
                self.message_field.cursor,
            ),
            AppState::BranchStoryInput => (
                clone_chars(&self.story_field.buffer),
                self.story_field.cursor,
            ),
            AppState::BranchNameInput => (
                clone_chars(&self.name_field.buffer),
                self.name_field.cursor,
            ),
            AppState::BranchSearchInput => (
                clone_chars(&self.search.query.buffer),
                self.search.query.cursor,
            ),
            _ => (Vec::new(), 0),
        };
        let mut matches: Vec<Vec<char>> = Vec::new();
        let mut i: usize = 0;
        while i < self.search.matches.len()
            invariant
                i <= self.search.matches@.len(),
                views_of(matches@) =~= views_of(self.search.matches@).subrange(0, i as int),
            decreases self.search.matches@.len() - i,
        {
            let ghost pre = views_of(self.search.matches@).subrange(0, i as int);
            let ghost post = views_of(self.search.matches@).subrange(0, i + 1 as int);
            let m = clone_chars(&self.search.matches[i]);
            matches.push(m);
            proof {
                assert(post.drop_last() =~= pre);
                assert(post.last() == self.search.matches@[i as int]@);
                assert(views_of(matches@) =~= post);
            }
            i = i + 1;
        }
        proof {
            assert(views_of(self.search.matches@).subrange(
                0,
                self.search.matches@.len() as int,
            ) =~= views_of(self.search.matches@));
        }
        let diff_lines = crate::diff::split_lines(&self.diff.content);
        ViewModel {
            state: self.state,
            should_quit: self.should_quit,
            should_proceed: self.should_proceed,
            cursor_visible: self.cursor_visible,
            files: self.files.clone_entries(),
            selected_file_index: self.selected_file_index,
            diff_text: self.diff.content_copy(),
            diff_scroll: self.diff.scroll_offset,
            diff_total_lines: diff_lines.len(),
            filter_text,
            filtered_candidates,
            selected_candidate,
            input_text,
            input_cursor,
            matches,
            match_selected: self.search.selected,
            match_scroll: self.search.scroll_offset,
            search_performed: self.search.search_performed,
        }
    }
}

} // verus!
