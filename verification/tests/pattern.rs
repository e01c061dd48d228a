use fd::pattern::Pattern;

#[test]
fn compile_keeps_source_and_case_switch() {
    let pattern = Pattern::compile("a.c", true).unwrap();
    assert_eq!(pattern.source(), "a.c");
    assert!(pattern.case_insensitive());
    let pattern = Pattern::compile("a.c", false).unwrap();
    assert_eq!(pattern.source(), "a.c");
    assert!(!pattern.case_insensitive());
}

#[test]
fn compile_rejects_an_unclosed_group() {
    let error = Pattern::compile("foo(bar", false).unwrap_err();
    assert!(!error.message.is_empty());
    assert_ne!(error.message, "foo(bar");
}

#[test]
fn compile_rejects_an_unclosed_class_in_either_case_mode() {
    assert!(Pattern::compile("[a-", false).is_err());
    assert!(Pattern::compile("[a-", true).is_err());
}

#[test]
fn compile_rejects_a_pattern_that_grows_too_big() {
    let error = Pattern::compile("\\w{1000}", false).unwrap_err();
    assert_eq!(error.message, "compiled program too big");
}

#[test]
fn empty_pattern_compiles_and_matches_every_text() {
    for case_insensitive in [false, true] {
        let pattern = Pattern::compile("", case_insensitive).unwrap();
        assert!(pattern.is_match(""));
        assert!(pattern.is_match("abc"));
        assert!(pattern.is_match("a/b/README.md"));
        assert!(pattern.is_match("\u{1f4a9}"));
    }
}

#[test]
fn match_is_found_anywhere_in_the_text() {
    let pattern = Pattern::compile("adm", false).unwrap();
    assert!(pattern.is_match("a/b/readme.md"));
    assert!(pattern.is_match("adm"));
    assert!(!pattern.is_match("a/b/license"));
    assert!(!pattern.is_match(""));
}

#[test]
fn case_insensitive_pattern_matches_either_case() {
    let pattern = Pattern::compile("readme", true).unwrap();
    assert!(pattern.is_match("README.md"));
    assert!(pattern.is_match("ReadMe.md"));
    assert!(pattern.is_match("readme.md"));
}

#[test]
fn case_sensitive_pattern_matches_its_own_case_only() {
    let pattern = Pattern::compile("readme", false).unwrap();
    assert!(!pattern.is_match("README.md"));
    assert!(pattern.is_match("readme.md"));
}

#[test]
fn pattern_is_a_regular_expression() {
    let pattern = Pattern::compile("^a.*\\.md$", false).unwrap();
    assert!(pattern.is_match("a/b/readme.md"));
    assert!(!pattern.is_match("b/a/readme.md"));
    assert!(!pattern.is_match("a/b/readme.mdx"));
}

#[test]
fn anchored_pattern_can_match_a_name_and_not_its_path() {
    let pattern = Pattern::compile("^b", false).unwrap();
    assert!(pattern.is_match("b"));
    assert!(!pattern.is_match("a/b"));
}

#[test]
fn match_result_is_not_the_text_being_empty_or_not() {
    let pattern = Pattern::compile("x", false).unwrap();
    assert!(!pattern.is_match("abc"));
    assert!(pattern.is_match("x"));
}

#[test]
fn same_rejected_source_gives_the_same_error_text() {
    let first = Pattern::compile("foo(bar", true).unwrap_err();
    let second = Pattern::compile("foo(bar", true).unwrap_err();
    assert_eq!(first, second);
    assert!(first.message.contains("unclosed group"));
}
