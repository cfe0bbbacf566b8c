use bro::text::{copy_strings, replace_all, split_on_colon, trim_end};

#[test]
fn replace_all_replaces_every_occurrence() {
    assert_eq!(replace_all("a.b.c", ".", "\\."), "a\\.b\\.c");
    assert_eq!(replace_all("aaa", "aa", "b"), "ba");
    assert_eq!(replace_all("abc", "x", "y"), "abc");
    assert_eq!(replace_all("", ".", "y"), "");
    assert_eq!(replace_all("é.ü", ".", "--"), "é--ü");
}

#[test]
fn split_on_colon_gives_pieces() {
    assert_eq!(split_on_colon("chrome"), vec!["chrome"]);
    assert_eq!(split_on_colon("chrome:Default"), vec!["chrome", "Default"]);
    assert_eq!(split_on_colon("a:b:c"), vec!["a", "b", "c"]);
    assert_eq!(split_on_colon(""), vec![""]);
    assert_eq!(split_on_colon(":"), vec!["", ""]);
}

#[test]
fn trim_end_drops_trailing_white_space() {
    assert_eq!(trim_end("cmd  \t\n"), "cmd");
    assert_eq!(trim_end("  cmd"), "  cmd");
    assert_eq!(trim_end("cmd\u{3000}"), "cmd");
    assert_eq!(trim_end(""), "");
}

#[test]
fn copy_strings_copies() {
    let v = vec!["a".to_string(), "b".to_string()];
    assert_eq!(copy_strings(&v), v);
}
