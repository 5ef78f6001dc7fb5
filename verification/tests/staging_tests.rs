use gitcc::staging::stage_patterns;

fn chars(s: &str) -> Vec<char> {
    s.chars().collect()
}

fn texts(vs: &[Vec<char>]) -> Vec<String> {
    vs.iter().map(|v| v.iter().collect()).collect()
}

#[test]
fn extensions_with_a_directory_become_scoped_globs() {
    let e = chars("rs,toml");
    let d = chars("src/");
    let r = stage_patterns(Some(&e), Some(&d));
    assert_eq!(texts(&r), vec!["src/**/*.rs", "src/**/*.toml"]);
}

#[test]
fn extensions_alone_become_bare_globs() {
    let e = chars("rs, md");
    let r = stage_patterns(Some(&e), None);
    assert_eq!(texts(&r), vec!["*.rs", "*.md"]);
}

#[test]
fn extension_entries_are_trimmed_and_stripped_of_dots() {
    let e = chars(" .rs , ..md ");
    let r = stage_patterns(Some(&e), None);
    assert_eq!(texts(&r), vec!["*.rs", "*.md"]);
}

#[test]
fn an_empty_extension_entry_still_yields_a_pattern() {
    let e = chars("rs,,md");
    let r = stage_patterns(Some(&e), None);
    assert_eq!(texts(&r), vec!["*.rs", "*.", "*.md"]);
}

#[test]
fn a_directory_alone_is_staged_without_its_trailing_slash() {
    let d = chars("src/deep//");
    let r = stage_patterns(None, Some(&d));
    assert_eq!(texts(&r), vec!["src/deep"]);
}

#[test]
fn no_filters_stage_the_whole_tree() {
    let r = stage_patterns(None, None);
    assert_eq!(texts(&r), vec!["."]);
}
