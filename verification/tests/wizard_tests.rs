use gitcc::build_commit_message;
use gitcc::config::Config;
use gitcc::files::{FileEntry, FileSet, FileStatus};
use gitcc::key_handler::{handle_key, Action, Key, KeyEvent};
use gitcc::state::{App, AppState, Prefill, WizardOp};

fn chars(s: &str) -> Vec<char> {
    s.chars().collect()
}

fn text(v: &[char]) -> String {
    v.iter().collect()
}

fn key(code: Key) -> KeyEvent {
    KeyEvent {
        code,
        ctrl: false,
        alt: false,
    }
}

fn config() -> Config {
    Config {
        commit_prefixes: vec![chars("feat:"), chars("fix:"), chars("docs:")],
        branch_prefixes: vec![chars("feat"), chars("fix")],
        story_prefix: Some(chars("JIRA-")),
        auto_push: Some(true),
        default_commit_prefix: None,
    }
}

fn entry(path: &str, staged: bool) -> FileEntry {
    FileEntry {
        path: chars(path),
        status: FileStatus::Modified,
        staged,
    }
}

fn commit_app(entries: Vec<FileEntry>, seeds: Prefill) -> App {
    App::new(
        config(),
        WizardOp::Commit,
        seeds,
        FileSet { entries },
        Vec::new(),
    )
}

#[test]
fn confirming_with_nothing_staged_is_rejected() {
    let mut app = commit_app(vec![entry("a.rs", false)], Prefill::none());
    let act = handle_key(&mut app, key(Key::Char('y')));
    assert!(matches!(app.state, AppState::StagedFilesReview));
    assert!(!app.should_proceed);
    assert!(!app.should_quit);
    assert_eq!(act, Action::Nothing);
}

#[test]
fn commit_flow_reaches_a_confirmed_end() {
    let mut app = commit_app(vec![entry("a.rs", true)], Prefill::none());
    handle_key(&mut app, key(Key::Char('y')));
    assert!(matches!(app.state, AppState::PrefixSelection));
    handle_key(&mut app, key(Key::Char('f')));
    handle_key(&mut app, key(Key::Char('i')));
    handle_key(&mut app, key(Key::Enter));
    assert_eq!(app.prefix.as_ref().map(|p| text(p)), Some("fix:".to_string()));
    assert!(matches!(app.state, AppState::MessageInput));
    for c in "done".chars() {
        handle_key(&mut app, key(Key::Char(c)));
    }
    handle_key(&mut app, key(Key::Enter));
    assert_eq!(app.message.as_ref().map(|m| text(m)), Some("done".to_string()));
    assert!(app.should_proceed);
    assert!(app.should_quit);
}

#[test]
fn prefilled_prefix_and_message_confirm_in_one_key() {
    let seeds = Prefill {
        prefix: Some(chars("feat:")),
        message: Some(chars("ready")),
        ..Prefill::none()
    };
    let mut app = commit_app(vec![entry("a.rs", true)], seeds);
    handle_key(&mut app, key(Key::Char('y')));
    assert!(app.should_proceed);
    assert!(app.should_quit);
}

#[test]
fn prefilled_prefix_skips_straight_to_the_message() {
    let seeds = Prefill {
        prefix: Some(chars("feat:")),
        ..Prefill::none()
    };
    let mut app = commit_app(vec![entry("a.rs", true)], seeds);
    handle_key(&mut app, key(Key::Char('y')));
    assert!(matches!(app.state, AppState::MessageInput));
    assert!(!app.should_quit);
}

#[test]
fn blank_message_is_not_accepted() {
    let mut app = commit_app(vec![entry("a.rs", true)], Prefill::none());
    handle_key(&mut app, key(Key::Char('y')));
    handle_key(&mut app, key(Key::Enter));
    assert!(matches!(app.state, AppState::MessageInput));
    handle_key(&mut app, key(Key::Char(' ')));
    handle_key(&mut app, key(Key::Enter));
    assert!(!app.should_quit);
    assert!(app.message.is_none());
}

#[test]
fn escape_aborts_from_every_commit_mode() {
    for setup in 0..3 {
        let mut app = commit_app(vec![entry("a.rs", true)], Prefill::none());
        if setup >= 1 {
            handle_key(&mut app, key(Key::Char('y')));
        }
        if setup >= 2 {
            handle_key(&mut app, key(Key::Enter));
        }
        handle_key(&mut app, key(Key::Esc));
        assert!(app.should_quit);
        assert!(!app.should_proceed);
    }
}

#[test]
fn toggling_asks_to_stage_an_unstaged_file() {
    let mut app = commit_app(vec![entry("a.rs", false)], Prefill::none());
    let act = handle_key(&mut app, key(Key::Enter));
    assert_eq!(act, Action::StageFile { index: 0 });
    assert!(!app.files.entries[0].staged);
    app.apply_stage_toggle(0, true);
    assert!(app.files.entries[0].staged);
    let act = handle_key(&mut app, key(Key::Enter));
    assert_eq!(act, Action::UnstageFile { index: 0 });
}

#[test]
fn a_failed_stage_call_leaves_the_set_unchanged() {
    let mut app = commit_app(vec![entry("a.rs", false)], Prefill::none());
    handle_key(&mut app, key(Key::Enter));
    app.apply_stage_toggle(0, false);
    assert!(!app.files.entries[0].staged);
}

#[test]
fn file_selection_wraps_and_asks_for_a_diff_refresh() {
    let mut app = commit_app(
        vec![entry("a.rs", false), entry("b.rs", false), entry("c.rs", false)],
        Prefill::none(),
    );
    let act = handle_key(&mut app, key(Key::Up));
    assert_eq!(app.selected_file_index, 2);
    assert_eq!(act, Action::RefreshDiff { index: 2 });
    let act = handle_key(&mut app, key(Key::Down));
    assert_eq!(app.selected_file_index, 0);
    assert_eq!(act, Action::RefreshDiff { index: 0 });
}

#[test]
fn j_and_k_scroll_the_diff_pane() {
    let mut app = commit_app(vec![entry("a.rs", false)], Prefill::none());
    app.diff.set_content(chars("a\nb\nc\nd\ne\nf\ng\nh\ni\nj\nk\nl"));
    app.diff.set_visible_rows(3);
    handle_key(&mut app, key(Key::Char('j')));
    handle_key(&mut app, key(Key::Char('j')));
    assert_eq!(app.diff.scroll_offset, 2);
    handle_key(&mut app, key(Key::Char('k')));
    assert_eq!(app.diff.scroll_offset, 1);
}

#[test]
fn unrecognized_keys_change_nothing() {
    let mut app = commit_app(vec![entry("a.rs", true)], Prefill::none());
    let act = handle_key(&mut app, key(Key::Other));
    assert_eq!(act, Action::Nothing);
    assert!(matches!(app.state, AppState::StagedFilesReview));
    assert!(!app.should_quit);
}

#[test]
fn default_commit_prefix_seeds_the_selection() {
    let mut cfg = config();
    cfg.default_commit_prefix = Some(chars("docs:"));
    let app = App::new(
        cfg,
        WizardOp::Commit,
        Prefill::none(),
        FileSet::new(),
        Vec::new(),
    );
    assert_eq!(app.prefixes.selected, 2);
}

#[test]
fn auto_push_off_in_the_config_disables_pushing() {
    let mut cfg = config();
    cfg.auto_push = Some(false);
    let app = App::new(
        cfg,
        WizardOp::Commit,
        Prefill::none(),
        FileSet::new(),
        Vec::new(),
    );
    assert!(app.no_push);
}

#[test]
fn commit_message_is_prefix_space_message() {
    let r = build_commit_message(&chars("fix:"), &chars("repair the handle"));
    assert_eq!(text(&r), "fix: repair the handle");
}

#[test]
fn status_letters() {
    assert_eq!(FileStatus::Added.as_str(), "A");
    assert_eq!(FileStatus::Modified.as_str(), "M");
    assert_eq!(FileStatus::Deleted.as_str(), "D");
}

#[test]
fn status_classification() {
    assert_eq!(FileStatus::classify(true, false), FileStatus::Added);
    assert_eq!(FileStatus::classify(false, true), FileStatus::Deleted);
    assert_eq!(FileStatus::classify(false, false), FileStatus::Modified);
    assert_eq!(FileStatus::classify(true, true), FileStatus::Added);
}

#[test]
fn cursor_blink_toggle_changes_no_other_state() {
    let mut app = commit_app(vec![entry("a.rs", true)], Prefill::none());
    assert!(app.cursor_visible);
    app.toggle_cursor();
    assert!(!app.cursor_visible);
    assert!(matches!(app.state, AppState::StagedFilesReview));
}
