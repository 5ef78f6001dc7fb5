//! Key dispatch: the transition rules of the wizard, one step per key
//! event.
//!
//! Each mode has its own step predicate and handler. A handler mutates the
//! state and returns the side effect the driver must perform (stage or
//! unstage a file, refresh the diff); the driver reports a stage/unstage
//! outcome back through `App::apply_stage_toggle` and hands the freshly
//! prepared diff text to the viewport. Esc aborts from every mode, and
//! unrecognized keys are ignored.

use vstd::prelude::*;

use crate::branch;
use crate::filter;
use crate::state::{App, AppState};
use crate::text::{blank, clone_chars, digit, is_blank, is_digit, views_of};
use crate::text_field;
use crate::viewport::{clamped, max_scroll};

verus! {

/// A key, already decoded from the terminal's raw event.
#[derive(Clone, Copy, Debug, PartialEq, Eq, Structural)]
pub enum Key {
    Char(char),
    Enter,
    Backspace,
    Delete,
    Up,
    Down,
    Left,
    Right,
    Home,
    End,
    Esc,
    Other,
}

/// A key together with the modifiers the word-wise editor bindings use.
#[derive(Clone, Copy, Debug, PartialEq, Eq, Structural)]
pub struct KeyEvent {
    pub code: Key,
    pub ctrl: bool,
    pub alt: bool,
}

/// The side effect a step asks of the driver; stage and unstage are
/// followed by a report through `App::apply_stage_toggle` and a diff
/// refresh, and a refresh alone follows a file-selection move.
#[derive(Clone, Copy, Debug, PartialEq, Eq, Structural)]
pub enum Action {
    Nothing,
    StageFile { index: usize },
    UnstageFile { index: usize },
    RefreshDiff { index: usize },
}

/// The step aborted: the quit flag is set and nothing else changes.
pub open spec fn aborted(pre: App, post: App) -> bool {
    post == App { should_quit: true, ..pre }
}

/// The key was ignored: no state change, no side effect.
pub open spec fn ignored(pre: App, post: App, act: Action) -> bool {
    post == pre && act == Action::Nothing
}

/// One step of the staged-files review: vertical motion wraps over the
/// snapshot and asks for a diff refresh; Enter asks to toggle the selected
/// file; `j`/`k` scroll the diff; `y` proceeds only with something staged,
/// skipping prompts the command line pre-filled; `n` and Esc abort.
pub open spec fn review_step(pre: App, key: KeyEvent, post: App, act: Action) -> bool {
    let n = pre.files.entries@.len() as int;
    match key.code {
        Key::Up => if n == 0 {
            ignored(pre, post, act)
        } else {
            &&& (post == App { selected_file_index: post.selected_file_index, ..pre })
            &&& post.selected_file_index == if pre.selected_file_index > 0 {
                pre.selected_file_index - 1
            } else {
                n - 1
            }
            &&& act == (Action::RefreshDiff { index: post.selected_file_index })
        },
        Key::Down => if n == 0 {
            ignored(pre, post, act)
        } else {
            &&& (post == App { selected_file_index: post.selected_file_index, ..pre })
            &&& post.selected_file_index == if pre.selected_file_index + 1 < n {
                pre.selected_file_index + 1
            } else {
                0int
            }
            &&& act == (Action::RefreshDiff { index: post.selected_file_index })
        },
        Key::Enter => if n == 0 {
            ignored(pre, post, act)
        } else {
            &&& post == pre
            &&& act == if pre.files.entries@[pre.selected_file_index as int].staged {
                (Action::UnstageFile { index: pre.selected_file_index })
            } else {
                (Action::StageFile { index: pre.selected_file_index })
            }
        },
        Key::Char(c) => if c == 'j' || c == 'k' {
            &&& (post == App { diff: post.diff, ..pre })
            &&& post.diff.content == pre.diff.content
            &&& post.diff.visible_rows == pre.diff.visible_rows
            &&& post.diff.scroll_offset == clamped(
                pre.diff.scroll_offset + (if c == 'j' {
                    1int
                } else {
                    -1int
                }),
                max_scroll(pre.diff.content@, pre.diff.visible_rows as nat) as int,
            )
            &&& act == Action::Nothing
        } else if c == 'y' || c == 'Y' {
            if !pre.files.any_staged() {
                ignored(pre, post, act)
            } else if pre.prefix is Some && pre.message is Some {
                &&& (post == App { should_proceed: true, should_quit: true, ..pre })
                &&& act == Action::Nothing
            } else if pre.prefix is Some {
                &&& (post == App { state: AppState::MessageInput, ..pre })
                &&& act == Action::Nothing
            } else {
                &&& (post == App { state: AppState::PrefixSelection, prefixes: post.prefixes, ..pre })
                &&& post.prefixes.candidates == pre.prefixes.candidates
                &&& post.prefixes.filter@.len() == 0
                &&& post.prefixes.selected == 0
                &&& act == Action::Nothing
            }
        } else if c == 'n' || c == 'N' {
            aborted(pre, post) && act == Action::Nothing
        } else {
            ignored(pre, post, act)
        },
        Key::Esc => aborted(pre, post) && act == Action::Nothing,
        _ => ignored(pre, post, act),
    }
}

/// One step of a prefix picker over the given list (the commit and branch
/// variants differ only in what Enter then does): characters narrow the
/// filter, Backspace widens it, vertical motion wraps over the filtered
/// view.
pub open spec fn picker_step(
    pre: filter::FilterableList,
    key: KeyEvent,
    post: filter::FilterableList,
) -> bool {
    match key.code {
        Key::Up => filter::moved_up(pre, post),
        Key::Down => filter::moved_down(pre, post),
        Key::Char(c) => filter::pushed_filter(pre, c, post),
        Key::Backspace => filter::popped_filter(pre, post),
        _ => post == pre,
    }
}

/// One step of the commit-prefix selection: picker keys work the filter;
/// Enter with a non-empty filtered view records the chosen prefix and moves
/// on to the message prompt, or straight to the confirmed end when the
/// message was pre-filled; Esc aborts.
pub open spec fn prefix_step(pre: App, key: KeyEvent, post: App, act: Action) -> bool {
    match key.code {
        Key::Up | Key::Down | Key::Char(_) | Key::Backspace => {
            &&& (post == App { prefixes: post.prefixes, ..pre })
            &&& picker_step(pre.prefixes, key, post.prefixes)
            &&& act == Action::Nothing
        },
        Key::Enter => {
            if pre.prefixes.filtered_view().len() > 0 {
                &&& (match post.prefix {
                    Some(p) => p@ == pre.prefixes.filtered_view()[pre.prefixes.selected as int],
                    None => false,
                })
                &&& if pre.message is Some {
                    post == App {
                        prefix: post.prefix,
                        should_proceed: true,
                        should_quit: true,
                        ..pre
                    }
                } else {
                    post == App { prefix: post.prefix, state: AppState::MessageInput, ..pre }
                }
                &&& act == Action::Nothing
            } else {
                ignored(pre, post, act)
            }
        },
        Key::Esc => aborted(pre, post) && act == Action::Nothing,
        _ => ignored(pre, post, act),
    }
}

/// One step of the branch-prefix selection: picker keys work the filter;
/// Enter with a non-empty filtered view records the chosen prefix and moves
/// on to the story prompt, or past it when the story was pre-filled; Esc
/// aborts.
pub open spec fn branch_prefix_step(pre: App, key: KeyEvent, post: App, act: Action) -> bool {
    match key.code {
        Key::Up | Key::Down | Key::Char(_) | Key::Backspace => {
            &&& (post == App { branch_prefixes: post.branch_prefixes, ..pre })
            &&& picker_step(pre.branch_prefixes, key, post.branch_prefixes)
            &&& act == Action::Nothing
        },
        Key::Enter => {
            if pre.branch_prefixes.filtered_view().len() > 0 {
                &&& (match post.branch_prefix {
                    Some(p) => p@ == pre.branch_prefixes.filtered_view()[
                        pre.branch_prefixes.selected as int
                    ],
                    None => false,
                })
                &&& (post == App {
                    branch_prefix: post.branch_prefix,
                    state: if pre.story_supplied {
                        AppState::BranchNameInput
                    } else {
                        AppState::BranchStoryInput
                    },
                    ..pre
                })
                &&& act == Action::Nothing
            } else {
                ignored(pre, post, act)
            }
        },
        Key::Esc => aborted(pre, post) && act == Action::Nothing,
        _ => ignored(pre, post, act),
    }
}

/// One editing step of a text field, with the word-wise bindings: Alt-d and
/// Ctrl-Delete delete the word ahead, Ctrl/Alt-Backspace the word behind,
/// Ctrl/Alt with the arrows jump word-wise.
pub open spec fn editor_step(
    pre: text_field::TextField,
    key: KeyEvent,
    post: text_field::TextField,
) -> bool {
    match key.code {
        Key::Char(c) => if key.alt && c == 'd' {
            text_field::deleted_word_forward(pre, post)
        } else {
            text_field::inserted(pre, c, post)
        },
        Key::Backspace => if key.ctrl || key.alt {
            text_field::deleted_word_backward(pre, post)
        } else {
            text_field::deleted_backward(pre, post)
        },
        Key::Delete => if key.ctrl {
            text_field::deleted_word_forward(pre, post)
        } else {
            text_field::deleted_forward(pre, post)
        },
        Key::Left => if key.ctrl || key.alt {
            text_field::moved_word_left(pre, post)
        } else {
            text_field::moved_left(pre, post)
        },
        Key::Right => if key.ctrl || key.alt {
            text_field::moved_word_right(pre, post)
        } else {
            text_field::moved_right(pre, post)
        },
        Key::Home => text_field::moved_home(pre, post),
        Key::End => text_field::moved_end(pre, post),
        _ => post == pre,
    }
}

/// One step of the commit-message prompt: editing keys work the field;
/// Enter with content that does not trim to nothing records the message and
/// ends the run confirmed; Esc aborts.
pub open spec fn message_step(pre: App, key: KeyEvent, post: App, act: Action) -> bool {
    match key.code {
        Key::Enter => {
            if !is_blank(pre.message_field.buffer@) {
                &&& (match post.message {
                    Some(m) => m@ == pre.message_field.buffer@,
                    None => false,
                })
                &&& (post == App {
                    message: post.message,
                    should_proceed: true,
                    should_quit: true,
                    ..pre
                })
                &&& act == Action::Nothing
            } else {
                ignored(pre, post, act)
            }
        },
        Key::Esc => aborted(pre, post) && act == Action::Nothing,
        Key::Char(_) | Key::Backspace | Key::Delete | Key::Left | Key::Right | Key::Home
            | Key::End => {
            &&& (post == App { message_field: post.message_field, ..pre })
            &&& editor_step(pre.message_field, key, post.message_field)
            &&& act == Action::Nothing
        },
        _ => ignored(pre, post, act),
    }
}

/// One plain (no word-wise bindings) editing step of a text field.
pub open spec fn plain_editor_step(
    pre: text_field::TextField,
    key: KeyEvent,
    post: text_field::TextField,
) -> bool {
    match key.code {
        Key::Backspace => text_field::deleted_backward(pre, post),
        Key::Delete => text_field::deleted_forward(pre, post),
        Key::Left => text_field::moved_left(pre, post),
        Key::Right => text_field::moved_right(pre, post),
        Key::Home => text_field::moved_home(pre, post),
        Key::End => text_field::moved_end(pre, post),
        _ => post == pre,
    }
}

/// One step of the story-number prompt: only digit characters reach the
/// field, any other character is silently rejected; Enter always moves on
/// to the name prompt (the story is optional); Esc aborts.
pub open spec fn story_step(pre: App, key: KeyEvent, post: App, act: Action) -> bool {
    match key.code {
        Key::Enter => {
            &&& (post == App { state: AppState::BranchNameInput, ..pre })
            &&& act == Action::Nothing
        },
        Key::Char(c) => if is_digit(c) {
            &&& (post == App { story_field: post.story_field, ..pre })
            &&& text_field::inserted(pre.story_field, c, post.story_field)
            &&& act == Action::Nothing
        } else {
            ignored(pre, post, act)
        },
        Key::Backspace | Key::Delete | Key::Left | Key::Right | Key::Home | Key::End => {
            &&& (post == App { story_field: post.story_field, ..pre })
            &&& plain_editor_step(pre.story_field, key, post.story_field)
            &&& act == Action::Nothing
        },
        Key::Esc => aborted(pre, post) && act == Action::Nothing,
        _ => ignored(pre, post, act),
    }
}

/// One step of the branch-name prompt: characters and plain editing keys
/// work the field; Enter with content that does not trim to nothing ends
/// the run confirmed; Esc aborts.
pub open spec fn name_step(pre: App, key: KeyEvent, post: App, act: Action) -> bool {
    match key.code {
        Key::Enter => {
            if !is_blank(pre.name_field.buffer@) {
                &&& (post == App { should_proceed: true, should_quit: true, ..pre })
                &&& act == Action::Nothing
            } else {
                ignored(pre, post, act)
            }
        },
        Key::Char(c) => {
            &&& (post == App { name_field: post.name_field, ..pre })
            &&& text_field::inserted(pre.name_field, c, post.name_field)
            &&& act == Action::Nothing
        },
        Key::Backspace | Key::Delete | Key::Left | Key::Right | Key::Home | Key::End => {
            &&& (post == App { name_field: post.name_field, ..pre })
            &&& plain_editor_step(pre.name_field, key, post.name_field)
            &&& act == Action::Nothing
        },
        Key::Esc => aborted(pre, post) && act == Action::Nothing,
        _ => ignored(pre, post, act),
    }
}

/// One step of the search-query prompt: characters and plain editing keys
/// work the query; Enter with a query that does not trim to nothing runs
/// the matcher, freezes the results, marks the search performed, and
/// browses them only when something matched; Esc aborts.
pub open spec fn search_input_step(pre: App, key: KeyEvent, post: App, act: Action) -> bool {
    match key.code {
        Key::Enter => {
            if !is_blank(pre.search.query.buffer@) {
                &&& (post == App { search: post.search, state: post.state, ..pre })
                &&& branch::submitted(
                    pre.search,
                    views_of(pre.all_branches@),
                    post.search,
                    post.search.matches@.len() > 0,
                )
                &&& post.state == if post.search.matches@.len() > 0 {
                    AppState::BranchSearchBrowse
                } else {
                    AppState::BranchSearchInput
                }
                &&& act == Action::Nothing
            } else {
                ignored(pre, post, act)
            }
        },
        Key::Char(c) => {
            &&& (post == App { search: post.search, ..pre })
            &&& (post.search == branch::BranchSelection { query: post.search.query, ..pre.search })
            &&& text_field::inserted(pre.search.query, c, post.search.query)
            &&& act == Action::Nothing
        },
        Key::Backspace | Key::Delete | Key::Left | Key::Right | Key::Home | Key::End => {
            &&& (post == App { search: post.search, ..pre })
            &&& (post.search == branch::BranchSelection { query: post.search.query, ..pre.search })
            &&& plain_editor_step(pre.search.query, key, post.search.query)
            &&& act == Action::Nothing
        },
        Key::Esc => aborted(pre, post) && act == Action::Nothing,
        _ => ignored(pre, post, act),
    }
}

/// One step of result browsing: vertical motion clamps at the edges and
/// keeps the selection visible; Enter ends the run confirmed on the
/// selected match; Esc aborts.
pub open spec fn search_browse_step(pre: App, key: KeyEvent, post: App, act: Action) -> bool {
    match key.code {
        Key::Up => {
            &&& (post == App { search: post.search, ..pre })
            &&& branch::sel_moved_up(pre.search, post.search)
            &&& act == Action::Nothing
        },
        Key::Down => {
            &&& (post == App { search: post.search, ..pre })
            &&& branch::sel_moved_down(pre.search, post.search)
            &&& act == Action::Nothing
        },
        Key::Enter => {
            if pre.search.matches@.len() > 0 {
                &&& (post == App { should_proceed: true, should_quit: true, ..pre })
                &&& act == Action::Nothing
            } else {
                ignored(pre, post, act)
            }
        },
        Key::Esc => aborted(pre, post) && act == Action::Nothing,
        _ => ignored(pre, post, act),
    }
}

/// Handles one key of the staged-files review.
pub fn handle_review_key(app: &mut App, key: KeyEvent) -> (act: Action)
    requires
        old(app).wf(),
    ensures
        final(app).wf(),
        review_step(*old(app), key, *final(app), act),
{
    match key.code {
        Key::Up => {
            let n = app.files.entries.len();
            if n == 0 {
                Action::Nothing
            } else {
                if app.selected_file_index > 0 {
                    app.selected_file_index = app.selected_file_index - 1;
                } else {
                    app.selected_file_index = n - 1;
                }
                Action::RefreshDiff { index: app.selected_file_index }
            }
        },
        Key::Down => {
            let n = app.files.entries.len();
            if n == 0 {
                Action::Nothing
            } else {
                if app.selected_file_index + 1 < n {
                    app.selected_file_index = app.selected_file_index + 1;
                } else {
                    app.selected_file_index = 0;
                }
                Action::RefreshDiff { index: app.selected_file_index }
            }
        },
        Key::Enter => {
            let n = app.files.entries.len();
            if n == 0 {
                Action::Nothing
            } else if app.files.entries[app.selected_file_index].staged {
                Action::UnstageFile { index: app.selected_file_index }
            } else {
                Action::StageFile { index: app.selected_file_index }
            }
        },
        Key::Char(c) => {
            if c == 'j' {
                app.diff.scroll(1);
                Action::Nothing
            } else if c == 'k' {
                app.diff.scroll(-1);
                Action::Nothing
            } else if c == 'y' || c == 'Y' {
                if !app.files.has_staged() {
                    Action::Nothing
                } else if app.prefix.is_some() && app.message.is_some() {
                    app.should_proceed = true;
                    app.should_quit = true;
                    Action::Nothing
                } else if app.prefix.is_some() {
                    app.state = AppState::MessageInput;
                    Action::Nothing
                } else {
                    app.prefixes.set_filter(Vec::new());
                    app.state = AppState::PrefixSelection;
                    Action::Nothing
                }
            } else if c == 'n' || c == 'N' {
                app.should_quit = true;
                Action::Nothing
            } else {
                Action::Nothing
            }
        },
        Key::Esc => {
            app.should_quit = true;
            Action::Nothing
        },
        _ => Action::Nothing,
    }
}

/// Handles one key of the commit-prefix selection.
pub fn handle_prefix_key(app: &mut App, key: KeyEvent) -> (act: Action)
    requires
        old(app).wf(),
    ensures
        final(app).wf(),
        prefix_step(*old(app), key, *final(app), act),
{
    match key.code {
        Key::Up => {
            app.prefixes.move_up();
            Action::Nothing
        },
        Key::Down => {
            app.prefixes.move_down();
            Action::Nothing
        },
        Key::Char(c) => {
            app.prefixes.push_filter(c);
            Action::Nothing
        },
        Key::Backspace => {
            app.prefixes.pop_filter();
            Action::Nothing
        },
        Key::Enter => {
            match app.prefixes.confirm() {
                Ok(p) => {
                    app.prefix = Some(p);
                    if app.message.is_some() {
                        app.should_proceed = true;
                        app.should_quit = true;
                    } else {
                        app.state = AppState::MessageInput;
                    }
                },
                Err(_) => {},
            }
            Action::Nothing
        },
        Key::Esc => {
            app.should_quit = true;
            Action::Nothing
        },
        _ => Action::Nothing,
    }
}

/// Handles one key of the commit-message prompt.
pub fn handle_message_key(app: &mut App, key: KeyEvent) -> (act: Action)
    requires
        old(app).wf(),
        old(app).message_field.buffer@.len() < usize::MAX,
    ensures
        final(app).wf(),
        message_step(*old(app), key, *final(app), act),
{
    match key.code {
        Key::Enter => {
            if !blank(&app.message_field.buffer) {
                let m = clone_chars(&app.message_field.buffer);
                app.message = Some(m);
                app.should_proceed = true;
                app.should_quit = true;
            }
            Action::Nothing
        },
        Key::Char(c) => {
            if key.alt && c == 'd' {
                app.message_field.delete_word_forward();
            } else {
                app.message_field.insert(c);
            }
            Action::Nothing
        },
        Key::Backspace => {
            if key.ctrl || key.alt {
                app.message_field.delete_word_backward();
            } else {
                app.message_field.delete_backward();
            }
            Action::Nothing
        },
        Key::Delete => {
            if key.ctrl {
                app.message_field.delete_word_forward();
            } else {
                app.message_field.delete_forward();
            }
            Action::Nothing
        },
        Key::Left => {
            if key.ctrl || key.alt {
                app.message_field.move_word_left();
            } else {
                app.message_field.move_left();
            }
            Action::Nothing
        },
        Key::Right => {
            if key.ctrl || key.alt {
                app.message_field.move_word_right();
            } else {
                app.message_field.move_right();
            }
            Action::Nothing
        },
        Key::Home => {
            app.message_field.move_home();
            Action::Nothing
        },
        Key::End => {
            app.message_field.move_end();
            Action::Nothing
        },
        Key::Esc => {
            app.should_quit = true;
            Action::Nothing
        },
        _ => Action::Nothing,
    }
}

/// Handles one key of the branch-prefix selection.
pub fn handle_branch_prefix_key(app: &mut App, key: KeyEvent) -> (act: Action)
    requires
        old(app).wf(),
    ensures
        final(app).wf(),
        branch_prefix_step(*old(app), key, *final(app), act),
{
    match key.code {
        Key::Up => {
            app.branch_prefixes.move_up();
            Action::Nothing
        },
        Key::Down => {
            app.branch_prefixes.move_down();
            Action::Nothing
        },
        Key::Char(c) => {
            app.branch_prefixes.push_filter(c);
            Action::Nothing
        },
        Key::Backspace => {
            app.branch_prefixes.pop_filter();
            Action::Nothing
        },
        Key::Enter => {
            match app.branch_prefixes.confirm() {
                Ok(p) => {
                    app.branch_prefix = Some(p);
                    if app.story_supplied {
                        app.state = AppState::BranchNameInput;
                    } else {
                        app.state = AppState::BranchStoryInput;
                    }
                },
                Err(_) => {},
            }
            Action::Nothing
        },
        Key::Esc => {
            app.should_quit = true;
            Action::Nothing
        },
        _ => Action::Nothing,
    }
}

/// Handles one key of the story-number prompt.
pub fn handle_story_key(app: &mut App, key: KeyEvent) -> (act: Action)
    requires
        old(app).wf(),
        old(app).story_field.buffer@.len() < usize::MAX,
    ensures
        final(app).wf(),
        story_step(*old(app), key, *final(app), act),
{
    match key.code {
        Key::Enter => {
            app.state = AppState::BranchNameInput;
            Action::Nothing
        },
        Key::Char(c) => {
            if digit(c) {
                app.story_field.insert(c);
            }
            Action::Nothing
        },
        Key::Backspace => {
            app.story_field.delete_backward();
            Action::Nothing
        },
        Key::Delete => {
            app.story_field.delete_forward();
            Action::Nothing
        },
        Key::Left => {
            app.story_field.move_left();
            Action::Nothing
        },
        Key::Right => {
            app.story_field.move_right();
            Action::Nothing
        },
        Key::Home => {
            app.story_field.move_home();
            Action::Nothing
        },
        Key::End => {
            app.story_field.move_end();
            Action::Nothing
        },
        Key::Esc => {
            app.should_quit = true;
            Action::Nothing
        },
        _ => Action::Nothing,
    }
}

/// Handles one key of the branch-name prompt.
pub fn handle_name_key(app: &mut App, key: KeyEvent) -> (act: Action)
    requires
        old(app).wf(),
        old(app).name_field.buffer@.len() < usize::MAX,
    ensures
        final(app).wf(),
        name_step(*old(app), key, *final(app), act),
{
    match key.code {
        Key::Enter => {
            if !blank(&app.name_field.buffer) {
                app.should_proceed = true;
                app.should_quit = true;
            }
            Action::Nothing
        },
        Key::Char(c) => {
            app.name_field.insert(c);
            Action::Nothing
        },
        Key::Backspace => {
            app.name_field.delete_backward();
            Action::Nothing
        },
        Key::Delete => {
            app.name_field.delete_forward();
            Action::Nothing
        },
        Key::Left => {
            app.name_field.move_left();
            Action::Nothing
        },
        Key::Right => {
            app.name_field.move_right();
            Action::Nothing
        },
        Key::Home => {
            app.name_field.move_home();
            Action::Nothing
        },
        Key::End => {
            app.name_field.move_end();
            Action::Nothing
        },
        Key::Esc => {
            app.should_quit = true;
            Action::Nothing
        },
        _ => Action::Nothing,
    }
}

/// Handles one key of the search-query prompt.
pub fn handle_search_input_key(app: &mut App, key: KeyEvent) -> (act: Action)
    requires
        old(app).wf(),
        old(app).state == AppState::BranchSearchInput,
        old(app).search.query.buffer@.len() < usize::MAX,
    ensures
        final(app).wf(),
        search_input_step(*old(app), key, *final(app), act),
{
    match key.code {
        Key::Enter => {
            if !blank(&app.search.query.buffer) {
                let found = app.search.submit(&app.all_branches);
                if found {
                    app.state = AppState::BranchSearchBrowse;
                }
            }
            Action::Nothing
        },
        Key::Char(c) => {
            app.search.query.insert(c);
            Action::Nothing
        },
        Key::Backspace => {
            app.search.query.delete_backward();
            Action::Nothing
        },
        Key::Delete => {
            app.search.query.delete_forward();
            Action::Nothing
        },
        Key::Left => {
            app.search.query.move_left();
            Action::Nothing
        },
        Key::Right => {
            app.search.query.move_right();
            Action::Nothing
        },
        Key::Home => {
            app.search.query.move_home();
            Action::Nothing
        },
        Key::End => {
            app.search.query.move_end();
            Action::Nothing
        },
        Key::Esc => {
            app.should_quit = true;
            Action::Nothing
        },
        _ => Action::Nothing,
    }
}

/// Handles one key of result browsing.
pub fn handle_search_browse_key(app: &mut App, key: KeyEvent) -> (act: Action)
    requires
        old(app).wf(),
    ensures
        final(app).wf(),
        search_browse_step(*old(app), key, *final(app), act),
{
    match key.code {
        Key::Up => {
            app.search.move_up();
            Action::Nothing
        },
        Key::Down => {
            app.search.move_down();
            Action::Nothing
        },
        Key::Enter => {
            if app.search.matches.len() > 0 {
                app.should_proceed = true;
                app.should_quit = true;
            }
            Action::Nothing
        },
        Key::Esc => {
            app.should_quit = true;
            Action::Nothing
        },
        _ => Action::Nothing,
    }
}

/// Dispatches one key event to the current mode's handler. Esc always
/// aborts; a run never leaves its flow; `should_proceed` is newly set only
/// together with `should_quit`.
pub fn handle_key(app: &mut App, key: KeyEvent) -> (act: Action)
    requires
        old(app).wf(),
        old(app).message_field.buffer@.len() < usize::MAX,
        old(app).story_field.buffer@.len() < usize::MAX,
        old(app).name_field.buffer@.len() < usize::MAX,
        old(app).search.query.buffer@.len() < usize::MAX,
    ensures
        final(app).wf(),
        match old(app).state {
            AppState::StagedFilesReview => review_step(*old(app), key, *final(app), act),
            AppState::PrefixSelection => prefix_step(*old(app), key, *final(app), act),
            AppState::MessageInput => message_step(*old(app), key, *final(app), act),
            AppState::BranchPrefixSelection => branch_prefix_step(
                *old(app),
                key,
                *final(app),
                act,
            ),
            AppState::BranchStoryInput => story_step(*old(app), key, *final(app), act),
            AppState::BranchNameInput => name_step(*old(app), key, *final(app), act),
            AppState::BranchSearchInput => search_input_step(*old(app), key, *final(app), act),
            AppState::BranchSearchBrowse => search_browse_step(*old(app), key, *final(app), act),
        },
        key.code == Key::Esc ==> final(app).should_quit,
        crate::state::flow_of(final(app).state) == crate::state::flow_of(old(app).state),
        final(app).should_proceed ==> old(app).should_proceed || final(app).should_quit,
{
    match app.state {
        AppState::StagedFilesReview => handle_review_key(app, key),
        AppState::PrefixSelection => handle_prefix_key(app, key),
        AppState::MessageInput => handle_message_key(app, key),
        AppState::BranchPrefixSelection => handle_branch_prefix_key(app, key),
        AppState::BranchStoryInput => handle_story_key(app, key),
        AppState::BranchNameInput => handle_name_key(app, key),
        AppState::BranchSearchInput => handle_search_input_key(app, key),
        AppState::BranchSearchBrowse => handle_search_browse_key(app, key),
    }
}

} // verus!
