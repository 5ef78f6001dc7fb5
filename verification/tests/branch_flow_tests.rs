use gitcc::config::Config;
use gitcc::files::FileSet;
use gitcc::key_handler::{handle_key, Key, KeyEvent};
use gitcc::state::{App, AppState, Prefill, WizardOp};

fn chars(s: &str) -> Vec<char> {
    s.chars().collect()
}

fn text(v: &[char]) -> String {
    v.iter().collect()
}

fn key(code: Key) -> KeyEvent {
    KeyEvent {
        code,
        ctrl: false,
        alt: false,
    }
}

fn config() -> Config {
    Config {
        commit_prefixes: vec![chars("feat:"), chars("fix:")],
        branch_prefixes: vec![chars("feat"), chars("fix"), chars("docs")],
        story_prefix: Some(chars("JIRA-")),
        auto_push: Some(true),
        default_commit_prefix: None,
    }
}

fn branch_app(seeds: Prefill) -> App {
    App::new(
        config(),
        WizardOp::CreateBranch,
        seeds,
        FileSet::new(),
        Vec::new(),
    )
}

fn search_app(branches: Vec<Vec<char>>) -> App {
    App::new(
        config(),
        WizardOp::SearchBranch,
        Prefill::none(),
        FileSet::new(),
        branches,
    )
}

#[test]
fn branch_flow_reaches_a_confirmed_end() {
    let mut app = branch_app(Prefill::none());
    assert!(matches!(app.state, AppState::BranchPrefixSelection));
    handle_key(&mut app, key(Key::Char('d')));
    handle_key(&mut app, key(Key::Enter));
    assert_eq!(
        app.branch_prefix.as_ref().map(|p| text(p)),
        Some("docs".to_string())
    );
    assert!(matches!(app.state, AppState::BranchStoryInput));
    handle_key(&mut app, key(Key::Char('4')));
    handle_key(&mut app, key(Key::Char('2')));
    handle_key(&mut app, key(Key::Enter));
    assert!(matches!(app.state, AppState::BranchNameInput));
    assert_eq!(text(&app.story_field.buffer), "42");
    for c in "guide".chars() {
        handle_key(&mut app, key(Key::Char(c)));
    }
    handle_key(&mut app, key(Key::Enter));
    assert!(app.should_proceed);
    assert!(app.should_quit);
    assert_eq!(text(&app.name_field.buffer), "guide");
}

#[test]
fn story_input_silently_rejects_non_digits() {
    let mut app = branch_app(Prefill::none());
    handle_key(&mut app, key(Key::Char('f')));
    handle_key(&mut app, key(Key::Enter));
    assert!(matches!(app.state, AppState::BranchStoryInput));
    handle_key(&mut app, key(Key::Char('x')));
    handle_key(&mut app, key(Key::Char('7')));
    handle_key(&mut app, key(Key::Char('-')));
    assert_eq!(text(&app.story_field.buffer), "7");
}

#[test]
fn an_empty_story_may_be_skipped() {
    let mut app = branch_app(Prefill::none());
    handle_key(&mut app, key(Key::Char('f')));
    handle_key(&mut app, key(Key::Enter));
    handle_key(&mut app, key(Key::Enter));
    assert!(matches!(app.state, AppState::BranchNameInput));
    assert_eq!(text(&app.story_field.buffer), "");
}

#[test]
fn blank_branch_name_is_not_accepted() {
    let mut app = branch_app(Prefill::none());
    handle_key(&mut app, key(Key::Char('f')));
    handle_key(&mut app, key(Key::Enter));
    handle_key(&mut app, key(Key::Enter));
    handle_key(&mut app, key(Key::Enter));
    assert!(!app.should_quit);
    assert!(!app.should_proceed);
}

#[test]
fn prefilled_branch_prefix_skips_its_prompt() {
    let seeds = Prefill {
        branch_prefix: Some(chars("feat")),
        ..Prefill::none()
    };
    let app = branch_app(seeds);
    assert!(matches!(app.state, AppState::BranchStoryInput));
}

#[test]
fn prefilled_prefix_and_story_skip_to_the_name() {
    let seeds = Prefill {
        branch_prefix: Some(chars("feat")),
        story: Some(chars("99")),
        ..Prefill::none()
    };
    let app = branch_app(seeds);
    assert!(matches!(app.state, AppState::BranchNameInput));
    assert_eq!(text(&app.story_field.buffer), "99");
}

#[test]
fn no_match_search_stays_in_query_entry_with_the_search_marked() {
    let mut app = search_app(vec![chars("main"), chars("develop")]);
    assert!(matches!(app.state, AppState::BranchSearchInput));
    for c in "xyz-no-match".chars() {
        handle_key(&mut app, key(Key::Char(c)));
    }
    handle_key(&mut app, key(Key::Enter));
    assert!(matches!(app.state, AppState::BranchSearchInput));
    assert!(app.search.search_performed);
    assert!(app.search.matches.is_empty());
    assert!(!app.should_quit);
}

#[test]
fn search_flow_browses_and_confirms_a_match() {
    let mut app = search_app(vec![
        chars("main"),
        chars("maintenance"),
        chars("origin/main"),
    ]);
    for c in "main".chars() {
        handle_key(&mut app, key(Key::Char(c)));
    }
    handle_key(&mut app, key(Key::Enter));
    assert!(matches!(app.state, AppState::BranchSearchBrowse));
    assert_eq!(app.search.matches.len(), 2);
    handle_key(&mut app, key(Key::Down));
    assert_eq!(app.search.selected, 1);
    handle_key(&mut app, key(Key::Enter));
    assert!(app.should_proceed);
    assert!(app.should_quit);
    assert_eq!(text(&app.search.matches[app.search.selected]), "maintenance");
}

#[test]
fn blank_query_does_not_run_a_search() {
    let mut app = search_app(vec![chars("main")]);
    handle_key(&mut app, key(Key::Char(' ')));
    handle_key(&mut app, key(Key::Enter));
    assert!(!app.search.search_performed);
    assert!(matches!(app.state, AppState::BranchSearchInput));
}

#[test]
fn escape_aborts_the_search_flow() {
    let mut app = search_app(vec![chars("main")]);
    handle_key(&mut app, key(Key::Esc));
    assert!(app.should_quit);
    assert!(!app.should_proceed);
}
