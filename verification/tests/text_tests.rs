use rtool::text::{
    concat2, concat3, copy_opt, copy_texts, eq_ignore_ascii_case, from_chars, is_whitespace, join,
    push_decimal, replace, same_text, strip_prefix_ignore_ascii_case, to_chars, trim,
};

#[test]
fn replace_exchanges_every_occurrence_from_the_left() {
    assert_eq!(replace("a-b-c", "-", "+"), "a+b+c");
    assert_eq!(replace("aaa", "aa", "b"), "ba");
    assert_eq!(replace("aaaa", "aa", "b"), "bb");
    assert_eq!(replace("abab", "ab", "abab"), "abababab");
    assert_eq!(replace("x${k}y${k}", "${k}", ""), "xy");
    assert_eq!(replace("${k", "${k}", "v"), "${k");
    assert_eq!(replace("", "a", "b"), "");
    assert_eq!(replace("ab", "abc", "x"), "ab");
    assert_eq!(replace("na\u{ef}ve \u{1f600}!", "\u{1f600}", "\u{e9}"), "na\u{ef}ve \u{e9}!");
    for (text, pattern, with) in [("a-b-c", "-", "+"), ("aaa", "aa", "b"), ("$${k}}", "${k}", "${k}")] {
        assert_eq!(replace(text, pattern, with), text.replace(pattern, with));
    }
}

#[test]
fn empty_pattern_occurs_nowhere() {
    assert_eq!(replace("abc", "", "x"), "abc");
    assert_eq!(replace("", "", "x"), "");
}

#[test]
fn trim_takes_white_space_from_both_ends_only() {
    assert_eq!(trim("  a b \t\r\n"), "a b");
    assert_eq!(trim("a"), "a");
    assert_eq!(trim(""), "");
    assert_eq!(trim(" \n\t "), "");
    assert_eq!(trim("\u{2028}x\u{3000}"), "x");
    assert_eq!(trim("\u{200b}x"), "\u{200b}x");
    for text in ["  a b \t\r\n", "\u{a0}\u{85}y z\u{1680}", "_ _"] {
        assert_eq!(trim(text), text.trim());
    }
}

#[test]
fn white_space_is_what_the_standard_library_takes_for_it() {
    let mut count = 0;
    for code in 0..=0x10ffffu32 {
        if let Some(c) = char::from_u32(code) {
            assert_eq!(is_whitespace(c), c.is_whitespace(), "U+{:04X}", code);
            if is_whitespace(c) {
                count += 1;
            }
        }
    }
    assert_eq!(count, 25);
    assert_eq!(trim("Hello, world!\n"), "Hello, world!");
}

#[test]
fn letters_a_to_z_match_in_either_case() {
    assert!(eq_ignore_ascii_case("Exit", "eXIT"));
    assert!(eq_ignore_ascii_case("", ""));
    assert!(eq_ignore_ascii_case("a1-Z", "A1-z"));
    assert!(!eq_ignore_ascii_case("exit", "exit "));
    assert!(!eq_ignore_ascii_case("@", "`"));
    assert!(!eq_ignore_ascii_case("[", "{"));
    assert!(!eq_ignore_ascii_case("\u{e9}", "\u{c9}"));
    assert!(!eq_ignore_ascii_case("k", "\u{212a}"));
}

#[test]
fn texts_are_compared_cut_and_joined() {
    assert!(same_text("abc", "abc"));
    assert!(!same_text("abc", "abd"));
    assert!(!same_text("abc", "ab"));
    assert_eq!(strip_prefix_ignore_ascii_case("load x", "load "), Some(String::from("x")));
    assert_eq!(strip_prefix_ignore_ascii_case("LoAd  x y", "load "), Some(String::from(" x y")));
    assert_eq!(strip_prefix_ignore_ascii_case("load ", "load "), Some(String::new()));
    assert_eq!(strip_prefix_ignore_ascii_case("x", ""), Some(String::from("x")));
    assert_eq!(strip_prefix_ignore_ascii_case("load", "load "), None);
    assert_eq!(strip_prefix_ignore_ascii_case("loading x", "load "), None);
    assert_eq!(strip_prefix_ignore_ascii_case("xload x", "load "), None);
    assert_eq!(strip_prefix_ignore_ascii_case("", "load "), None);
    let parts = vec![String::from("a"), String::new(), String::from("c")];
    assert_eq!(join(&parts, ", "), "a, , c");
    assert_eq!(join(&parts[..1].to_vec(), ", "), "a");
    assert_eq!(join(&Vec::new(), ", "), "");
    assert_eq!(copy_texts(&parts), parts);
    assert_eq!(concat2("ab", "cd"), "abcd");
    assert_eq!(concat3("a", "", "b"), "ab");
    assert_eq!(copy_opt(&Some(String::from("x"))), Some(String::from("x")));
    assert_eq!(copy_opt(&None), None);
}

#[test]
fn characters_go_back_and_forth() {
    let chars = to_chars("h\u{e9}llo");
    assert_eq!(chars, vec!['h', '\u{e9}', 'l', 'l', 'o']);
    assert_eq!(from_chars(&chars, 0, 5), "h\u{e9}llo");
    assert_eq!(from_chars(&chars, 1, 3), "\u{e9}l");
    assert_eq!(from_chars(&chars, 2, 2), "");
}

#[test]
fn numbers_are_written_in_decimal_digits() {
    for n in [0u32, 7, 10, 99, 100, 1070, 65536, 4294967295] {
        let mut out = String::from("n=");
        push_decimal(&mut out, n);
        assert_eq!(out, format!("n={}", n));
    }
}
