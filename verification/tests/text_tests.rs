use cvm::text::{join_text, replace_text, same_text, text_after_last};

#[test]
fn text_after_last_takes_what_follows_the_separator() {
    assert_eq!(text_after_last("a/b/c", '/'), "c");
    assert_eq!(text_after_last("abc", '/'), "abc");
    assert_eq!(text_after_last("abc/", '/'), "");
    assert_eq!(text_after_last("", '/'), "");
    assert_eq!(text_after_last("/", '/'), "");
    assert_eq!(text_after_last("äö_üß", '_'), "üß");
}

#[test]
fn concat_joins_two_texts() {
    assert_eq!(join_text("ab", "cd"), "abcd");
    assert_eq!(join_text("", "cd"), "cd");
    assert_eq!(join_text("ab", ""), "ab");
}

#[test]
fn same_text_compares_by_characters() {
    assert!(same_text("linux", "linux"));
    assert!(!same_text("linux", "Linux"));
    assert!(!same_text("linux", "linux "));
    assert!(same_text("", ""));
}

#[test]
fn replace_text_replaces_every_match_from_the_left() {
    assert_eq!(replace_text("a{x}b{x}", "{x}", "1"), "a1b1");
    assert_eq!(replace_text("aaa", "aa", "b"), "ba");
    assert_eq!(replace_text("abc", "d", "e"), "abc");
    assert_eq!(replace_text("abc", "", "e"), "abc");
    assert_eq!(replace_text("", "a", "e"), "");
    assert_eq!(replace_text("ab", "abc", "e"), "ab");
    assert_eq!(replace_text("{x}", "{x}", "{x}{x}"), "{x}{x}");
}

#[test]
fn replace_text_agrees_with_the_standard_library() {
    let cases = [
        ("postgresql://{user}@{host}:5432/{db_name}", "{user}", "postgres"),
        ("xxxx", "xx", "y"),
        ("abcabcab", "abc", ""),
        ("übergrößen", "ö", "oe"),
    ];
    for (text, from, to) in cases {
        assert_eq!(replace_text(text, from, to), text.replace(from, to));
    }
}
