use gitcc::branch::{build_branch_name, resolve_checkout, search, BranchSelection, CheckoutAction};

fn chars(s: &str) -> Vec<char> {
    s.chars().collect()
}

fn text(v: &[char]) -> String {
    v.iter().collect()
}

fn texts(vs: &[Vec<char>]) -> Vec<String> {
    vs.iter().map(|v| text(v)).collect()
}

fn branches() -> Vec<Vec<char>> {
    vec![chars("main"), chars("origin/main"), chars("origin/feature-x")]
}

#[test]
fn local_query_excludes_remote_tracking_duplicates() {
    let r = search(&chars("main"), &branches());
    assert_eq!(texts(&r), vec!["main"]);
}

#[test]
fn remote_query_targets_the_remote_namespace() {
    let r = search(&chars("origin/main"), &branches());
    assert_eq!(texts(&r), vec!["origin/main"]);
}

#[test]
fn search_is_case_insensitive() {
    let r = search(&chars("MAIN"), &branches());
    assert_eq!(texts(&r), vec!["main"]);
    let r = search(&chars("ORIGIN/feat"), &branches());
    assert_eq!(texts(&r), vec!["origin/feature-x"]);
}

#[test]
fn search_with_no_match_returns_nothing() {
    let r = search(&chars("xyz-no-match"), &branches());
    assert!(r.is_empty());
}

#[test]
fn empty_query_keeps_local_branches_only() {
    let r = search(&chars(""), &branches());
    assert_eq!(texts(&r), vec!["main"]);
}

#[test]
fn checkout_of_a_local_name_is_plain() {
    match resolve_checkout(&chars("dev"), &vec![chars("main")]) {
        CheckoutAction::Plain { name } => assert_eq!(text(&name), "dev"),
        _ => panic!("expected a plain checkout"),
    }
}

#[test]
fn checkout_of_a_remote_name_with_existing_local_uses_the_local() {
    match resolve_checkout(&chars("origin/dev"), &vec![chars("dev")]) {
        CheckoutAction::Plain { name } => assert_eq!(text(&name), "dev"),
        _ => panic!("expected a plain checkout of the stripped name"),
    }
}

#[test]
fn checkout_of_a_remote_name_without_local_creates_a_tracking_branch() {
    match resolve_checkout(&chars("origin/dev"), &vec![chars("main")]) {
        CheckoutAction::CreateTracking { local, remote } => {
            assert_eq!(text(&local), "dev");
            assert_eq!(text(&remote), "origin/dev");
        }
        _ => panic!("expected a tracking branch"),
    }
}

#[test]
fn branch_name_with_story_and_story_prefix() {
    let r = build_branch_name(
        &chars("feat"),
        Some(&chars("123")),
        &chars("login"),
        Some(&chars("JIRA-")),
    );
    assert_eq!(text(&r), "feat/JIRA-123/login");
}

#[test]
fn branch_name_with_story_and_no_story_prefix() {
    let r = build_branch_name(&chars("fix"), Some(&chars("7")), &chars("crash"), None);
    assert_eq!(text(&r), "fix/7/crash");
}

#[test]
fn branch_name_without_story() {
    let r = build_branch_name(&chars("feat"), None, &chars("login"), None);
    assert_eq!(text(&r), "feat/login");
}

#[test]
fn browse_selection_clamps_at_the_edges() {
    let mut s = BranchSelection::new(2);
    s.query.insert('a');
    let all = vec![
        chars("alpha"),
        chars("beta-a"),
        chars("gamma-a"),
        chars("delta-a"),
    ];
    assert!(s.submit(&all));
    assert_eq!(s.matches.len(), 4);
    s.move_up();
    assert_eq!(s.selected, 0);
    s.move_down();
    s.move_down();
    s.move_down();
    s.move_down();
    assert_eq!(s.selected, 3);
}

#[test]
fn browse_window_follows_the_selection() {
    let mut s = BranchSelection::new(2);
    s.query.insert('a');
    let all = vec![
        chars("alpha"),
        chars("beta-a"),
        chars("gamma-a"),
        chars("delta-a"),
    ];
    assert!(s.submit(&all));
    s.move_down();
    assert_eq!(s.scroll_offset, 0);
    s.move_down();
    assert_eq!(s.scroll_offset, 1);
    s.move_down();
    assert_eq!(s.scroll_offset, 2);
    s.move_up();
    s.move_up();
    s.move_up();
    assert_eq!(s.selected, 0);
    assert_eq!(s.scroll_offset, 0);
}

#[test]
fn submit_with_no_matches_reports_nothing_found() {
    let mut s = BranchSelection::new(5);
    s.query.insert('z');
    assert!(!s.submit(&vec![chars("main")]));
    assert!(s.search_performed);
    assert!(s.matches.is_empty());
}
