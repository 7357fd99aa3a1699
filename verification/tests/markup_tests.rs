use taskpanel::markup::strip;

#[test]
fn strip_bold_and_emphasis() {
    assert_eq!(strip("**bold** and _em_", 100), "bold and em");
}

#[test]
fn strip_link_keeps_text() {
    assert_eq!(strip("[see](http://x)", 100), "see");
}

#[test]
fn strip_image_keeps_text() {
    assert_eq!(strip("![img](http://e/i.png) rest", 100), "img rest");
}

#[test]
fn strip_header_and_code() {
    assert_eq!(strip("# Header and `code`", 100), "Header and code");
}

#[test]
fn strip_single_markers() {
    assert_eq!(strip("*it* and ~st~ and _u_", 100), "it and st and u");
}

#[test]
fn strip_unterminated_marker_stops_at_end() {
    assert_eq!(strip("a**unterminated", 100), "aunterminated");
}

#[test]
fn strip_truncates_with_ellipsis() {
    assert_eq!(strip("**abcdefghijkl**", 10), "abcdefg...");
    assert_eq!(strip("**abcdefghijkl**", 10).chars().count(), 10);
}

#[test]
fn strip_small_budget_truncates_plainly() {
    assert_eq!(strip("abcdef", 2), "ab");
    let out = strip("**abcdef**", 1);
    assert!(out.chars().count() <= 1);
}

#[test]
fn strip_empty_is_empty() {
    assert_eq!(strip("", 100), "");
}

#[test]
fn strip_is_safe_on_multibyte_text() {
    assert_eq!(strip("h\u{e9}llo **w\u{f6}rld**", 100), "h\u{e9}llo w\u{f6}rld");
    assert_eq!(strip("\u{65e5}\u{672c}\u{8a9e} *\u{30c6}\u{30b9}\u{30c8}*", 100), "\u{65e5}\u{672c}\u{8a9e} \u{30c6}\u{30b9}\u{30c8}");
}

#[test]
fn strip_nested_link_text_is_stripped() {
    assert_eq!(strip("[**bold** link](http://x)", 100), "bold link");
}

#[test]
fn strip_length_always_bounded() {
    let inputs = ["", "abc", "**abcdef**", "[text](url) and much more text here", "# header"];
    for s in inputs {
        for n in [0usize, 1, 2, 3, 5, 10, 100] {
            assert!(strip(s, n).chars().count() <= n);
        }
    }
}

#[test]
fn strip_removes_one_header_level_only() {
    assert_eq!(strip("# # Header", 100), "# Header");
}
