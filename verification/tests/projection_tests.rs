use gitcc::config::Config;
use gitcc::files::{FileEntry, FileSet, FileStatus};
use gitcc::key_handler::{handle_key, Key, KeyEvent};
use gitcc::state::{App, AppState, Prefill, WizardOp};

fn chars(s: &str) -> Vec<char> {
    s.chars().collect()
}

fn text(v: &[char]) -> String {
    v.iter().collect()
}

fn config() -> Config {
    Config {
        commit_prefixes: vec![chars("feat:"), chars("fix:")],
        branch_prefixes: vec![chars("feat")],
        story_prefix: None,
        auto_push: None,
        default_commit_prefix: None,
    }
}

fn app_with_files() -> App {
    App::new(
        config(),
        WizardOp::Commit,
        Prefill::none(),
        FileSet {
            entries: vec![
                FileEntry {
                    path: chars("src/a.rs"),
                    status: FileStatus::Modified,
                    staged: true,
                },
                FileEntry {
                    path: chars("b.png"),
                    status: FileStatus::Added,
                    staged: false,
                },
            ],
        },
        Vec::new(),
    )
}

fn plain(code: Key) -> KeyEvent {
    KeyEvent {
        code,
        ctrl: false,
        alt: false,
    }
}

fn with_ctrl(code: Key) -> KeyEvent {
    KeyEvent {
        code,
        ctrl: true,
        alt: false,
    }
}

fn with_alt(code: Key) -> KeyEvent {
    KeyEvent {
        code,
        ctrl: false,
        alt: true,
    }
}

#[test]
fn review_projection_carries_files_and_diff() {
    let mut app = app_with_files();
    app.diff.set_content(chars("line one\nline two"));
    let vm = app.project();
    assert!(matches!(vm.state, AppState::StagedFilesReview));
    assert_eq!(vm.files.len(), 2);
    assert_eq!(text(&vm.files[0].path), "src/a.rs");
    assert!(vm.files[0].staged);
    assert_eq!(vm.files[1].status, FileStatus::Added);
    assert_eq!(vm.selected_file_index, 0);
    assert_eq!(text(&vm.diff_text), "line one\nline two");
    assert_eq!(vm.diff_total_lines, 2);
    assert_eq!(vm.diff_scroll, 0);
    assert!(vm.cursor_visible);
}

#[test]
fn picker_projection_shows_the_filtered_view() {
    let mut app = app_with_files();
    handle_key(&mut app, plain(Key::Char('y')));
    handle_key(&mut app, plain(Key::Char('f')));
    handle_key(&mut app, plain(Key::Char('i')));
    let vm = app.project();
    assert!(matches!(vm.state, AppState::PrefixSelection));
    assert_eq!(text(&vm.filter_text), "fi");
    assert_eq!(vm.filtered_candidates.len(), 1);
    assert_eq!(text(&vm.filtered_candidates[0]), "fix:");
    assert_eq!(vm.selected_candidate, 0);
}

#[test]
fn editor_projection_shows_buffer_and_cursor() {
    let mut app = app_with_files();
    handle_key(&mut app, plain(Key::Char('y')));
    handle_key(&mut app, plain(Key::Enter));
    for c in "oops".chars() {
        handle_key(&mut app, plain(Key::Char(c)));
    }
    handle_key(&mut app, plain(Key::Left));
    let vm = app.project();
    assert!(matches!(vm.state, AppState::MessageInput));
    assert_eq!(text(&vm.input_text), "oops");
    assert_eq!(vm.input_cursor, 3);
}

#[test]
fn alt_d_deletes_the_word_ahead_of_the_cursor() {
    let mut app = app_with_files();
    handle_key(&mut app, plain(Key::Char('y')));
    handle_key(&mut app, plain(Key::Enter));
    for c in "fix the bug".chars() {
        handle_key(&mut app, plain(Key::Char(c)));
    }
    handle_key(&mut app, plain(Key::Home));
    handle_key(&mut app, with_alt(Key::Char('d')));
    assert_eq!(text(&app.message_field.buffer), " the bug");
}

#[test]
fn ctrl_backspace_deletes_the_word_behind_the_cursor() {
    let mut app = app_with_files();
    handle_key(&mut app, plain(Key::Char('y')));
    handle_key(&mut app, plain(Key::Enter));
    for c in "fix the bug".chars() {
        handle_key(&mut app, plain(Key::Char(c)));
    }
    handle_key(&mut app, with_ctrl(Key::Backspace));
    assert_eq!(text(&app.message_field.buffer), "fix the ");
    assert_eq!(app.message_field.cursor, 8);
}

#[test]
fn ctrl_arrows_jump_word_wise() {
    let mut app = app_with_files();
    handle_key(&mut app, plain(Key::Char('y')));
    handle_key(&mut app, plain(Key::Enter));
    for c in "one two".chars() {
        handle_key(&mut app, plain(Key::Char(c)));
    }
    handle_key(&mut app, with_ctrl(Key::Left));
    assert_eq!(app.message_field.cursor, 4);
    handle_key(&mut app, with_ctrl(Key::Left));
    assert_eq!(app.message_field.cursor, 0);
    handle_key(&mut app, with_ctrl(Key::Right));
    assert_eq!(app.message_field.cursor, 4);
}
