use oj_judger::compare::{compare_two_str, CompareOption};

const STRICT: CompareOption = CompareOption { allow_trailing_space: false, allow_trailing_blank_line: false };

#[test]
fn compare_test() {
    let s = "123\n456\n\n789";
    assert!(compare_two_str(s, s, None));
    assert!(!compare_two_str(s, "123\n456\n789", None));
    assert!(!compare_two_str(s, "123\n456\n\n78", None));
}

#[test]
fn trailing_blank_lines_are_ignored_by_default() {
    assert!(compare_two_str("a\nb\n\n", "a\nb", None));
    assert!(compare_two_str("a\nb", "a\nb\n\n\n", None));
    assert!(compare_two_str("\n\n", "", None));
    assert!(!compare_two_str("a\nb\n\n", "a\nb", Some(STRICT)));
}

#[test]
fn trailing_spaces_are_ignored_by_default() {
    assert!(compare_two_str("a  \nb", "a\nb ", None));
    assert!(!compare_two_str("a  \nb", "a\nb ", Some(STRICT)));
    assert!(!compare_two_str(" a", "a", None));
    let spaces_only = CompareOption { allow_trailing_space: true, allow_trailing_blank_line: false };
    assert!(compare_two_str("x \ny", "x\ny   ", Some(spaces_only)));
    assert!(!compare_two_str("x\ny\n", "x\ny", Some(spaces_only)));
}

#[test]
fn default_option_is_lenient() {
    let o = CompareOption::default();
    assert!(o.allow_trailing_space);
    assert!(o.allow_trailing_blank_line);
}

#[test]
fn missing_lines_do_not_match() {
    assert!(!compare_two_str("1\n2\n3", "1\n2", None));
    assert!(!compare_two_str("x", "", None));
}

#[test]
fn output_lines_past_the_expected_ones_are_not_read() {
    assert!(compare_two_str("1\n2", "1\n2\n3", None));
    assert!(compare_two_str("7", "7 \nrest", None));
}

#[test]
fn empty_texts_match() {
    assert!(compare_two_str("", "", None));
    assert!(compare_two_str("", "", Some(STRICT)));
}

#[test]
fn non_ascii_lines_compare_by_content() {
    assert!(compare_two_str("héllo wörld \n", "héllo wörld", None));
    assert!(!compare_two_str("héllo", "hëllo", None));
}
