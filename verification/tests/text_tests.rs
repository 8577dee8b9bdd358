use autodl::text::{str_eq, tokenize};

#[test]
fn tokenize_single_url() {
    let urls = tokenize("http://example/a");
    assert_eq!(urls.len(), 1);
    assert_eq!(urls[0], "http://example/a");
}

#[test]
fn tokenize_two_urls() {
    let urls = tokenize("http://example/a http://example/b");
    assert_eq!(urls.len(), 2);
    assert_eq!(urls[0], "http://example/a");
    assert_eq!(urls[1], "http://example/b");
}

#[test]
fn tokenize_collapses_runs_of_whitespace() {
    let urls = tokenize("  a\t\tb \n c  ");
    assert_eq!(urls.len(), 3);
    assert_eq!(urls[0], "a");
    assert_eq!(urls[1], "b");
    assert_eq!(urls[2], "c");
}

#[test]
fn tokenize_empty_input_gives_no_tokens() {
    assert_eq!(tokenize("").len(), 0);
    assert_eq!(tokenize("   \t\n  ").len(), 0);
}

#[test]
fn tokenize_splits_on_unicode_whitespace() {
    // no-break space, em space, ideographic space: all separators, as the
    // standard library's whitespace splitting would treat them
    let urls = tokenize("a\u{a0}b\u{2003}c\u{3000}d");
    assert_eq!(urls.len(), 4);
    assert_eq!(urls[0], "a");
    assert_eq!(urls[1], "b");
    assert_eq!(urls[2], "c");
    assert_eq!(urls[3], "d");
    assert_eq!(tokenize("\u{2028}\u{205f}\u{85}").len(), 0);
}

#[test]
fn str_eq_decides_equality() {
    assert!(str_eq("abc", "abc"));
    assert!(!str_eq("abc", "abd"));
    assert!(!str_eq("abc", "ab"));
    assert!(str_eq("", ""));
}
