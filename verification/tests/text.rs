use encard::text::{chars_of, decimal_text, split, trim};

#[test]
fn trim_removes_spaces_at_both_ends() {
    assert_eq!(trim("  What is 2+2? "), "What is 2+2?");
}

#[test]
fn trim_keeps_inner_white_space() {
    assert_eq!(trim("\t a  b \n"), "a  b");
}

#[test]
fn trim_of_white_space_only_is_empty() {
    assert_eq!(trim(" \t\r\n "), "");
    assert_eq!(trim(""), "");
}

#[test]
fn trim_knows_unicode_white_space() {
    assert_eq!(trim("\u{2003}\u{00a0}caf\u{e9}\u{3000}"), "caf\u{e9}");
}

#[test]
fn trim_leaves_clean_text_alone() {
    assert_eq!(trim("x"), "x");
    assert_eq!(trim("d\u{e9}j\u{e0} vu"), "d\u{e9}j\u{e0} vu");
}

#[test]
fn split_cuts_at_each_comma() {
    assert_eq!(split("3,4,5", ','), vec!["3", "4", "5"]);
}

#[test]
fn split_of_empty_text_is_one_empty_piece() {
    assert_eq!(split("", ','), vec![""]);
}

#[test]
fn split_without_separator_is_the_text() {
    assert_eq!(split("abc", ','), vec!["abc"]);
}

#[test]
fn split_keeps_empty_pieces() {
    assert_eq!(split(",a,,b,", ','), vec!["", "a", "", "b", ""]);
}

#[test]
fn split_does_not_trim_pieces() {
    assert_eq!(split("a , b", ','), vec!["a ", " b"]);
}

#[test]
fn split_handles_multibyte_text() {
    assert_eq!(split("\u{e9}t\u{e9},\u{6771}\u{4eac},z", ','), vec!["\u{e9}t\u{e9}", "\u{6771}\u{4eac}", "z"]);
}

#[test]
fn split_matches_the_standard_library() {
    for s in ["", ",", "a", "a,b", ",,", "x,,y", "tail,", ",head"] {
        let expected: Vec<String> = s.split(',').map(|p| p.to_string()).collect();
        assert_eq!(split(s, ','), expected);
    }
}

#[test]
fn trim_matches_the_standard_library() {
    for s in ["", " ", "a", " a", "a ", " a b ", "\n\ta\u{2028}", "\u{1680}x\u{205f}"] {
        assert_eq!(trim(s), s.trim());
    }
}

#[test]
fn chars_of_lists_the_characters() {
    assert_eq!(chars_of("a\u{e9}\u{6771}"), vec!['a', '\u{e9}', '\u{6771}']);
    assert_eq!(chars_of(""), Vec::<char>::new());
}

#[test]
fn decimal_text_of_small_numbers() {
    assert_eq!(decimal_text(0), "0");
    assert_eq!(decimal_text(7), "7");
    assert_eq!(decimal_text(10), "10");
    assert_eq!(decimal_text(42), "42");
    assert_eq!(decimal_text(1234567890), "1234567890");
}

#[test]
fn decimal_text_of_the_largest_number() {
    assert_eq!(decimal_text(u32::MAX), "4294967295");
}

#[test]
fn decimal_text_matches_the_standard_library() {
    for n in [0u32, 1, 9, 10, 11, 99, 100, 101, 999, 1000, 65535, 65536, 4294967294] {
        assert_eq!(decimal_text(n), n.to_string());
    }
}
