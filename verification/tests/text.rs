use agent_core::text::{
    any_alphanumeric, chars_of, contains_chars, eq_ignoring_ascii_case, first_line_of, is_all_ascii_digits,
    lowercase_chars, split_lines, str_eq, trim, trim_bounds, truncate_string, word_bounds,
};

fn chars(s: &str) -> Vec<char> {
    s.chars().collect()
}

#[test]
fn chars_of_gives_the_characters() {
    assert_eq!(chars_of("a\u{e9}\u{1f600}"), vec!['a', '\u{e9}', '\u{1f600}']);
    assert_eq!(chars_of(""), Vec::<char>::new());
}

#[test]
fn trim_removes_whitespace_at_both_ends() {
    assert_eq!(trim("  a b \n"), "a b");
    assert_eq!(trim("\u{a0}x\u{3000}"), "x");
    assert_eq!(trim("x"), "x");
    assert_eq!(trim(" \t\r\n"), "");
    assert_eq!(trim(""), "");
    assert_eq!(trim_bounds(&chars("  ab ")), (2, 4));
    assert_eq!(trim_bounds(&chars("   ")), (3, 3));
}

fn holds(hay: &str, needle: &str) -> bool {
    contains_chars(&chars(hay), &chars(needle))
}

#[test]
fn contains_finds_contiguous_parts() {
    assert!(holds("hello world", "lo w"));
    assert!(holds("hello", "hello"));
    assert!(holds("hello", ""));
    assert!(holds("", ""));
    assert!(!holds("hello", "hello!"));
    assert!(!holds("hello", "hl"));
    assert!(!holds("", "a"));
    assert!(holds("aab", "ab"));
    assert!(holds("abc", "c"));
}

#[test]
fn case_is_ignored_where_asked() {
    assert_eq!(lowercase_chars("Hello \u{c9}COLE"), chars("hello \u{e9}cole"));
    assert_eq!(lowercase_chars(""), chars(""));
    assert!(eq_ignoring_ascii_case(&chars("ToTaL"), &chars("total")));
    assert!(!eq_ignoring_ascii_case(&chars("\u{c9}"), &chars("\u{e9}")));
    assert!(!eq_ignoring_ascii_case(&chars("total"), &chars("totals")));
    assert!(!eq_ignoring_ascii_case(&chars("[otal"), &chars("{otal")));
}

#[test]
fn strings_are_equal_by_their_characters() {
    assert!(str_eq("abc", "abc"));
    assert!(str_eq("", ""));
    assert!(!str_eq("abc", "abd"));
    assert!(!str_eq("abc", "ab"));
    assert!(!str_eq("abc", "ABC"));
}

#[test]
fn words_are_the_runs_between_whitespace() {
    assert_eq!(word_bounds(&chars("  total   12 \n x")), vec![(2, 7), (10, 12), (15, 16)]);
    assert_eq!(word_bounds(&chars("one")), vec![(0, 3)]);
    assert_eq!(word_bounds(&chars(" \t ")), vec![]);
    assert_eq!(word_bounds(&chars("")), vec![]);
}

#[test]
fn digits_are_ascii_digits() {
    assert!(is_all_ascii_digits(&chars("0123456789")));
    assert!(is_all_ascii_digits(&chars("")));
    assert!(!is_all_ascii_digits(&chars("12a")));
    assert!(!is_all_ascii_digits(&chars("\u{661}")));
    assert!(!is_all_ascii_digits(&chars("/")));
    assert!(!is_all_ascii_digits(&chars(":")));
}

#[test]
fn first_line_ends_at_the_line_feed() {
    assert_eq!(first_line_of("one\ntwo"), "one");
    assert_eq!(first_line_of("one\r\ntwo"), "one");
    assert_eq!(first_line_of("one\r"), "one\r");
    assert_eq!(first_line_of("one"), "one");
    assert_eq!(first_line_of("\nrest"), "");
    assert_eq!(first_line_of(""), "");
}

#[test]
fn lines_are_split_as_std_splits_them() {
    let samples = [
        "", "a", "a\n", "a\nb", "a\r\nb\r\n", "\n", "\n\n", "a\rb\n", "\r\n", "x\n\ny", "tail\r",
    ];
    for s in samples.iter() {
        let expected: Vec<String> = s.lines().map(|l| l.to_string()).collect();
        assert_eq!(split_lines(s), expected);
    }
}

#[test]
fn truncation_keeps_short_texts() {
    assert_eq!(truncate_string("hello", 5), "hello");
    assert_eq!(truncate_string("hello", 80), "hello");
    assert_eq!(truncate_string("hello world", 5), "hello...");
    assert_eq!(truncate_string("hello", 0), "...");
    assert_eq!(truncate_string("\u{e9}t\u{e9}", 3), "\u{e9}t...");
}

fn every_char() -> impl Iterator<Item = char> {
    (0u32..=0x10ffff).filter_map(char::from_u32)
}

#[test]
fn whitespace_is_the_stated_list() {
    for c in every_char() {
        let listed = matches!(
            c,
            '\u{9}'..='\u{d}'
                | ' '
                | '\u{85}'
                | '\u{a0}'
                | '\u{1680}'
                | '\u{2000}'..='\u{200a}'
                | '\u{2028}'
                | '\u{2029}'
                | '\u{202f}'
                | '\u{205f}'
                | '\u{3000}'
        );
        let blank = trim_bounds(&vec![c]) == (1, 1);
        assert_eq!(blank, listed, "character {:x}", c as u32);
    }
}

#[test]
fn ascii_alphanumerics_are_letters_and_digits() {
    for c in every_char().take_while(|c| *c <= '\u{7f}') {
        let listed = matches!(c, 'a'..='z' | 'A'..='Z' | '0'..='9');
        assert_eq!(any_alphanumeric(&vec![c]), listed, "character {:x}", c as u32);
    }
    assert!(any_alphanumeric(&chars("\u{e9}")));
    assert!(!any_alphanumeric(&chars("\u{2014}")));
}

#[test]
fn ascii_case_folds_letters_only() {
    let fold = |c: char| if c.is_ascii_uppercase() { (c as u8 + 32) as char } else { c };
    for a in every_char().take_while(|c| *c <= '\u{ff}') {
        for b in every_char().take_while(|c| *c <= '\u{ff}') {
            assert_eq!(eq_ignoring_ascii_case(&vec![a], &vec![b]), fold(a) == fold(b));
        }
    }
}
