use gitcc::diff::{binary_numstat, build_added_preview, build_truncated_diff, prepare_diff};

fn chars(s: &str) -> Vec<char> {
    s.chars().collect()
}

fn text(v: &[char]) -> String {
    v.iter().collect()
}

fn numbered_lines(n: usize) -> String {
    (0..n).map(|i| format!("line{i}")).collect::<Vec<_>>().join("\n")
}

#[test]
fn short_diff_is_left_unchanged() {
    let d = chars("@@ -1 +1 @@\n-a\n+b");
    assert_eq!(text(&build_truncated_diff(&d)), "@@ -1 +1 @@\n-a\n+b");
}

#[test]
fn long_diff_is_cut_with_a_counting_trailer() {
    let d = chars(&numbered_lines(105));
    let out = text(&build_truncated_diff(&d));
    let expected_head = numbered_lines(100);
    assert_eq!(
        out,
        format!("{expected_head}\n... (diff truncated, 5 more lines)")
    );
}

#[test]
fn added_preview_marks_every_line() {
    let out = text(&build_added_preview(&chars("alpha\nbeta")));
    assert_eq!(out, "+ alpha\n+ beta");
}

#[test]
fn added_preview_is_cut_with_a_counting_trailer() {
    let content = numbered_lines(102);
    let out = text(&build_added_preview(&chars(&content)));
    let expected_head: String = (0..100)
        .map(|i| format!("+ line{i}"))
        .collect::<Vec<_>>()
        .join("\n");
    assert_eq!(out, format!("{expected_head}\n... (2 more lines)"));
}

#[test]
fn blank_diff_with_readable_content_becomes_a_preview() {
    let out = prepare_diff(&chars("  \n"), Some(&chars("new file")));
    assert_eq!(text(&out), "+ new file");
}

#[test]
fn blank_diff_without_content_becomes_a_notice() {
    let out = prepare_diff(&chars(""), None);
    assert_eq!(text(&out), "No changes to display");
}

#[test]
fn substantial_diff_is_passed_through_prepare() {
    let out = prepare_diff(&chars("+x"), Some(&chars("ignored")));
    assert_eq!(text(&out), "+x");
}

#[test]
fn numstat_starting_with_a_dash_names_a_binary_file() {
    assert!(binary_numstat(&chars("-\t-\tpicture.png")));
    assert!(!binary_numstat(&chars("3\t1\tsrc/lib.rs")));
    assert!(!binary_numstat(&chars("")));
}

#[test]
fn trailer_renders_larger_counts_exactly() {
    let d = chars(&numbered_lines(223));
    let out = text(&build_truncated_diff(&d));
    assert!(out.ends_with("... (diff truncated, 123 more lines)"));
}
