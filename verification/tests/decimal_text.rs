use bot_state::decimal::{format_u64, parse_u64};
use bot_state::text::{
    begins_with, chars_of, copy_range, find_char, holds_text, is_whitespace_char, matches_at,
    removed, rest_after_first, same_text, second_field_of, string_of, trimmed,
};

/// A small deterministic generator, so that failures can be reproduced.
fn next(seed: &mut u64) -> u64 {
    *seed = seed.wrapping_mul(6_364_136_223_846_793_005).wrapping_add(1_442_695_040_888_963_407);
    *seed >> 33
}

fn text_over(alphabet: &[char], seed: &mut u64, max_len: u64) -> String {
    let len = next(seed) % (max_len + 1);
    (0..len).map(|_| alphabet[(next(seed) % alphabet.len() as u64) as usize]).collect()
}

fn chars(text: &str) -> Vec<char> {
    text.chars().collect()
}

#[test]
fn parses_what_the_grammar_allows() {
    assert_eq!(parse_u64("0"), Some(0));
    assert_eq!(parse_u64("7"), Some(7));
    assert_eq!(parse_u64("+7"), Some(7));
    assert_eq!(parse_u64("007"), Some(7));
    assert_eq!(parse_u64("1700000000000"), Some(1_700_000_000_000));
    assert_eq!(parse_u64("18446744073709551615"), Some(u64::MAX));
    assert_eq!(parse_u64("+18446744073709551615"), Some(u64::MAX));
    assert_eq!(parse_u64("00000000000000000000000018446744073709551615"), Some(u64::MAX));
}

#[test]
fn refuses_everything_else() {
    for text in [
        "", "+", "-", "-0", "-1", "++1", "+-1", "1+", " 1", "1 ", "1.0", "1e3", "0x10", "1_000",
        "18446744073709551616", "18446744073709551620", "99999999999999999999",
        "184467440737095516150", "\u{0661}", "\u{FF11}", "12a", "a12", "1\n",
    ] {
        assert_eq!(parse_u64(text), None, "{:?}", text);
    }
}

#[test]
fn parsing_agrees_with_the_standard_library() {
    let alphabet = ['0', '1', '2', '5', '9', '+', '-', ' ', 'a', '.', '\u{0663}'];
    let mut seed = 1;
    for _ in 0..20_000 {
        let text = text_over(&alphabet, &mut seed, 6);
        assert_eq!(parse_u64(&text), text.parse::<u64>().ok(), "{:?}", text);
    }
    let digits = ['0', '1', '4', '6', '8', '9'];
    for _ in 0..20_000 {
        let text = text_over(&digits, &mut seed, 24);
        assert_eq!(parse_u64(&text), text.parse::<u64>().ok(), "{:?}", text);
    }
}

#[test]
fn formats_in_the_shortest_form() {
    assert_eq!(format_u64(0), "0");
    assert_eq!(format_u64(9), "9");
    assert_eq!(format_u64(10), "10");
    assert_eq!(format_u64(1_000_000), "1000000");
    assert_eq!(format_u64(u64::MAX), "18446744073709551615");
}

#[test]
fn what_is_written_can_be_read_back() {
    let mut seed = 7;
    for _ in 0..5_000 {
        let value = next(&mut seed) << (next(&mut seed) % 34);
        let text = format_u64(value);
        assert_eq!(text, value.to_string());
        assert_eq!(parse_u64(&text), Some(value));
    }
    for value in [0, 1, 9, 10, 99, 100, u64::MAX - 1, u64::MAX] {
        assert_eq!(parse_u64(&format_u64(value)), Some(value));
    }
}

#[test]
fn strings_and_characters_convert_both_ways() {
    for text in ["", "a", "ACTION: BUY", "gr\u{FC}\u{DF}e \u{1F600}\n"] {
        assert_eq!(chars_of(text), chars(text));
        assert_eq!(string_of(&chars(text)), text);
    }
}

#[test]
fn same_text_is_equality() {
    assert!(same_text("", ""));
    assert!(same_text("gemma", "gemma"));
    assert!(!same_text("gemma", "gemm"));
    assert!(!same_text("gemma", "gemmb"));
    assert!(!same_text("gemma", "Gemma"));
    assert!(!same_text("", "a"));
}

#[test]
fn white_space_is_what_unicode_says() {
    let mut count = 0;
    for code in 0..=0x10FFFFu32 {
        if let Some(c) = char::from_u32(code) {
            assert_eq!(is_whitespace_char(c), c.is_whitespace(), "U+{:04X}", code);
            if c.is_whitespace() {
                count += 1;
            }
        }
    }
    assert_eq!(count, 25);
}

#[test]
fn trimming_agrees_with_the_standard_library() {
    for text in ["", " ", "a", " a", "a ", "  a b  ", "\t\r\n x \u{A0}\u{3000}", "\u{200B}a\u{200B}"] {
        assert_eq!(string_of(&trimmed(&chars(text))), text.trim(), "{:?}", text);
    }
    let alphabet = [' ', '\t', '\r', '\u{85}', '\u{2003}', 'a', 'b', ':', '\u{200B}'];
    let mut seed = 3;
    for _ in 0..20_000 {
        let text = text_over(&alphabet, &mut seed, 8);
        assert_eq!(string_of(&trimmed(&chars(&text))), text.trim(), "{:?}", text);
    }
}

#[test]
fn fields_agree_with_split() {
    let alphabet = [':', 'a', 'b', ' ', '$'];
    let mut seed = 11;
    for _ in 0..20_000 {
        let text = text_over(&alphabet, &mut seed, 8);
        let second = text.split(':').nth(1).unwrap_or("");
        assert_eq!(string_of(&second_field_of(&chars(&text), ':')), second, "{:?}", text);
        let rest = text.split(':').skip(1).collect::<Vec<&str>>().join(":");
        assert_eq!(string_of(&rest_after_first(&chars(&text), ':')), rest, "{:?}", text);
    }
    assert_eq!(string_of(&second_field_of(&chars("PRICE: 12:30"), ':')), " 12");
    assert_eq!(string_of(&rest_after_first(&chars("PRICE: 12:30"), ':')), " 12:30");
    assert_eq!(string_of(&second_field_of(&chars("no colon"), ':')), "");
    assert_eq!(string_of(&rest_after_first(&chars("no colon"), ':')), "");
}

#[test]
fn finds_the_first_occurrence() {
    let text = chars("a:b:c");
    assert_eq!(find_char(&text, 0, ':'), 1);
    assert_eq!(find_char(&text, 1, ':'), 1);
    assert_eq!(find_char(&text, 2, ':'), 3);
    assert_eq!(find_char(&text, 4, ':'), 5);
    assert_eq!(find_char(&text, 5, ':'), 5);
    assert_eq!(find_char(&text, 0, 'z'), 5);
    assert_eq!(find_char(&Vec::new(), 0, 'z'), 0);
}

#[test]
fn copies_a_range() {
    let text = chars("abcdef");
    assert_eq!(copy_range(&text, 0, 6), text);
    assert_eq!(copy_range(&text, 2, 4), chars("cd"));
    assert_eq!(copy_range(&text, 3, 3), Vec::<char>::new());
}

#[test]
fn removing_agrees_with_replace() {
    let alphabet = ['$', ',', '1', '%', ' '];
    let mut seed = 5;
    for _ in 0..10_000 {
        let text = text_over(&alphabet, &mut seed, 8);
        assert_eq!(string_of(&removed(&chars(&text), '$')), text.replace("$", ""));
        assert_eq!(
            string_of(&removed(&removed(&chars(&text), '$'), ',')),
            text.replace("$", "").replace(",", "")
        );
    }
}

#[test]
fn searching_agrees_with_the_standard_library() {
    let alphabet = ['B', 'U', 'Y', 'S', 'E', 'L'];
    let mut seed = 13;
    for _ in 0..20_000 {
        let text = text_over(&alphabet, &mut seed, 9);
        let text_chars = chars(&text);
        for pattern in ["BUY", "SELL", "", "B", "LL"] {
            assert_eq!(holds_text(&text_chars, pattern), text.contains(pattern), "{:?}", text);
            assert_eq!(begins_with(&text_chars, pattern), text.starts_with(pattern), "{:?}", text);
        }
    }
    assert!(holds_text(&Vec::new(), ""));
    assert!(!holds_text(&Vec::new(), "a"));
}

#[test]
fn matches_only_where_the_pattern_stands() {
    let text = chars("xBUYx");
    let pattern = chars("BUY");
    assert!(!matches_at(&text, &pattern, 0));
    assert!(matches_at(&text, &pattern, 1));
    assert!(!matches_at(&text, &pattern, 2));
    assert!(!matches_at(&text, &pattern, 3));
    assert!(!matches_at(&text, &pattern, usize::MAX));
    assert!(matches_at(&text, &Vec::new(), 5));
    assert!(!matches_at(&text, &Vec::new(), 6));
}
