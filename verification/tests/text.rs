use skatebit_bot::decimal::{parse_i32, write_decimal, write_signed_decimal};
use skatebit_bot::bytes::{first_bytes, shorten};
use skatebit_bot::text::{
    chars_from, chars_of, contains_chars, eq_chars_ignore_ascii_case, first_chars, is_whitespace,
    join_strings, rfind, same_text, text_or, trim, trim_bounds,
};

fn strings(parts: &[&str]) -> Vec<String> {
    parts.iter().map(|s| s.to_string()).collect()
}

#[test]
fn trim_removes_whitespace_at_both_ends_only() {
    assert_eq!(trim("  a b  "), "a b");
    assert_eq!(trim("\n\tx\r\n"), "x");
    assert_eq!(trim("x"), "x");
    assert_eq!(trim("a  b"), "a  b");
}

#[test]
fn trim_of_blank_text_is_empty() {
    assert_eq!(trim(""), "");
    assert_eq!(trim("   "), "");
    assert_eq!(trim("\n"), "");
}

#[test]
fn trim_knows_whitespace_beyond_ascii() {
    assert_eq!(trim("\u{a0}\u{2003}é x\u{3000}"), "é x");
    assert_eq!(trim("\u{200b}x"), "\u{200b}x");
}

#[test]
fn trim_agrees_with_the_standard_library() {
    for s in ["", " ", "a", " a", "a ", " a b ", "\t\n", "\u{85}x\u{2028}", "  é  ü  "] {
        assert_eq!(trim(s), s.trim(), "{:?}", s);
    }
}

#[test]
fn trim_bounds_skip_the_whitespace_at_both_ends() {
    assert_eq!(trim_bounds(&[true, true, false, true, false, true]), (2, 5));
    assert_eq!(trim_bounds(&[false, false]), (0, 2));
    assert_eq!(trim_bounds(&[false]), (0, 1));
    assert_eq!(trim_bounds(&[true, true, true]), (3, 3));
    assert_eq!(trim_bounds(&[]), (0, 0));
}

#[test]
fn join_puts_the_separator_between_neighbours() {
    assert_eq!(join_strings(&strings(&["a", "b", "c"]), ", "), "a, b, c");
    assert_eq!(join_strings(&strings(&["a"]), ", "), "a");
    assert_eq!(join_strings(&strings(&[]), ", "), "");
    assert_eq!(join_strings(&strings(&["", ""]), "-"), "-");
    assert_eq!(join_strings(&strings(&["x", "y"]), ""), "xy");
}

#[test]
fn rfind_gives_the_last_position_in_chars() {
    assert_eq!(rfind("a - b - c", " - "), Some(5));
    assert_eq!(rfind("abc", "abc"), Some(0));
    assert_eq!(rfind("abc", "c"), Some(2));
    assert_eq!(rfind("aaa", "aa"), Some(1));
    assert_eq!(rfind("é:é:1", ":"), Some(3));
}

#[test]
fn rfind_of_a_missing_or_longer_needle_is_none() {
    assert_eq!(rfind("abc", "d"), None);
    assert_eq!(rfind("ab", "abc"), None);
    assert_eq!(rfind("", "a"), None);
}

#[test]
fn rfind_of_the_empty_needle_is_the_end() {
    assert_eq!(rfind("abc", ""), Some(3));
    assert_eq!(rfind("", ""), Some(0));
}

#[test]
fn first_chars_and_chars_from_cut_by_chars() {
    assert_eq!(first_chars("héllo", 2), "hé");
    assert_eq!(first_chars("héllo", 0), "");
    assert_eq!(first_chars("héllo", 5), "héllo");
    assert_eq!(first_chars("héllo", 9), "héllo");
    assert_eq!(chars_from("héllo", 2), "llo");
    assert_eq!(chars_from("héllo", 0), "héllo");
    assert_eq!(chars_from("héllo", 5), "");
    assert_eq!(chars_from("héllo", 6), "");
}

#[test]
fn shorten_cuts_only_texts_that_are_too_long() {
    assert_eq!(shorten("abcdef", 5, 2), "ab...");
    assert_eq!(shorten("abcde", 5, 2), "abcde");
    assert_eq!(shorten("", 0, 0), "");
    assert_eq!(shorten("a", 0, 0), "...");
    assert_eq!(shorten("ab", 1, 5), "ab...");
}

#[test]
fn shorten_counts_bytes_and_keeps_whole_chars() {
    let fits: String = "é".repeat(40);
    assert_eq!(fits.len(), 80);
    assert_eq!(shorten(&fits, 80, 77), fits);
    assert_eq!(shorten(&fits, 75, 72), format!("{}...", "é".repeat(36)));
    let long: String = "é".repeat(41);
    assert_eq!(shorten(&long, 80, 77), format!("{}...", "é".repeat(38)));
    let faces: String = "😀".repeat(3);
    assert_eq!(shorten(&faces, 10, 9), format!("{}...", "😀".repeat(2)));
    assert_eq!(shorten(&faces, 10, 3), "...");
}

#[test]
fn first_bytes_never_cuts_inside_a_char() {
    assert_eq!(first_bytes("héllo", 0), "");
    assert_eq!(first_bytes("héllo", 1), "h");
    assert_eq!(first_bytes("héllo", 2), "h");
    assert_eq!(first_bytes("héllo", 3), "hé");
    assert_eq!(first_bytes("héllo", 5), "héll");
    assert_eq!(first_bytes("héllo", 6), "héllo");
    assert_eq!(first_bytes("héllo", 60), "héllo");
    assert_eq!(first_bytes("😀", 3), "");
    assert_eq!(first_bytes("", 3), "");
}

#[test]
fn first_bytes_is_the_longest_whole_prefix_within_the_limit() {
    let text = "ab ✓ cd é fin 😀!";
    for limit in 0..=text.len() + 2 {
        let cut = first_bytes(text, limit);
        assert!(cut.len() <= limit);
        assert!(text.starts_with(cut));
        for longer in cut.len() + 1..=limit.min(text.len()) {
            assert!(!text.is_char_boundary(longer));
        }
    }
}

#[test]
fn whitespace_is_what_the_standard_library_takes_for_it() {
    let mut count = 0;
    for code in 0..=0x10FFFFu32 {
        if let Some(c) = char::from_u32(code) {
            assert_eq!(is_whitespace(c), c.is_whitespace(), "U+{:04X}", code);
            if is_whitespace(c) {
                count += 1;
            }
        }
    }
    assert_eq!(count, 25);
}

#[test]
fn contains_chars_finds_contiguous_runs() {
    assert!(contains_chars(&chars_of("alpha park"), &chars_of("a p")));
    assert!(contains_chars(&chars_of("alpha park"), &chars_of("park")));
    assert!(contains_chars(&chars_of("alpha park"), &chars_of("alpha park")));
    assert!(contains_chars(&chars_of("école"), &chars_of("éc")));
    assert!(contains_chars(&chars_of("abc"), &chars_of("")));
    assert!(contains_chars(&chars_of(""), &chars_of("")));
    assert!(!contains_chars(&chars_of("alpha park"), &chars_of("ap")));
    assert!(!contains_chars(&chars_of("alpha"), &chars_of("alphab")));
    assert!(!contains_chars(&chars_of(""), &chars_of("a")));
    assert!(!contains_chars(&chars_of("Alpha"), &chars_of("alpha")));
}

#[test]
fn contains_chars_agrees_with_the_standard_library() {
    let hays = ["", "a", "ab", "aab", "abab", "é✓é", "xxé"];
    let needles = ["", "a", "b", "ab", "ba", "aab", "é", "✓é", "éé"];
    for hay in hays {
        for needle in needles {
            assert_eq!(
                contains_chars(&chars_of(hay), &chars_of(needle)),
                hay.contains(needle),
                "{:?} in {:?}",
                needle,
                hay
            );
        }
    }
}

#[test]
fn ascii_case_is_ignored_and_no_other() {
    assert!(eq_chars_ignore_ascii_case(&chars_of("Sound Mod"), &chars_of("sOUND mOD")));
    assert!(eq_chars_ignore_ascii_case(&chars_of(""), &chars_of("")));
    assert!(eq_chars_ignore_ascii_case(&chars_of("École"), &chars_of("ÉCOLE")));
    assert!(!eq_chars_ignore_ascii_case(&chars_of("École"), &chars_of("école")));
    assert!(!eq_chars_ignore_ascii_case(&chars_of("ab"), &chars_of("abc")));
    assert!(!eq_chars_ignore_ascii_case(&chars_of("@"), &chars_of("`")));
    assert!(!eq_chars_ignore_ascii_case(&chars_of("["), &chars_of("{")));
    for (a, b) in [("az", "AZ"), ("Mod-1", "mOD-1"), ("k", "K"), ("K", "\u{212a}"), ("ss", "ß")] {
        assert_eq!(
            eq_chars_ignore_ascii_case(&chars_of(a), &chars_of(b)),
            a.eq_ignore_ascii_case(b),
            "{:?} {:?}",
            a,
            b
        );
    }
}

#[test]
fn numbers_are_written_in_decimal() {
    assert_eq!(write_decimal(0), "0");
    assert_eq!(write_decimal(7), "7");
    assert_eq!(write_decimal(10), "10");
    assert_eq!(write_decimal(12104), "12104");
    assert_eq!(write_decimal(u64::MAX), "18446744073709551615");
}

#[test]
fn negative_numbers_get_a_minus_sign() {
    assert_eq!(write_signed_decimal(0), "0");
    assert_eq!(write_signed_decimal(42), "42");
    assert_eq!(write_signed_decimal(-1), "-1");
    assert_eq!(write_signed_decimal(-2147483648), "-2147483648");
    assert_eq!(write_signed_decimal(i64::MAX), "9223372036854775807");
    assert_eq!(write_signed_decimal(i64::MIN), "-9223372036854775808");
}

#[test]
fn parse_i32_reads_signed_decimals() {
    assert_eq!(parse_i32("0"), Some(0));
    assert_eq!(parse_i32("123"), Some(123));
    assert_eq!(parse_i32("+123"), Some(123));
    assert_eq!(parse_i32("-123"), Some(-123));
    assert_eq!(parse_i32("007"), Some(7));
    assert_eq!(parse_i32("-0"), Some(0));
    assert_eq!(parse_i32("2147483647"), Some(i32::MAX));
    assert_eq!(parse_i32("-2147483648"), Some(i32::MIN));
    assert_eq!(parse_i32("00000000000000000000012"), Some(12));
}

#[test]
fn parse_i32_rejects_what_is_no_number_or_does_not_fit() {
    for s in [
        "", "+", "-", " 1", "1 ", "1a", "a1", "--1", "+-1", "1_000", "1.0", "0x10", "٣",
        "2147483648", "-2147483649", "99999999999999999999999999", "+2147483648",
    ] {
        assert_eq!(parse_i32(s), None, "{:?}", s);
    }
}

#[test]
fn parse_i32_agrees_with_the_standard_library() {
    for s in ["", "1", "-1", "+1", "+", "-", "12a", "2147483647", "2147483648", "-2147483648", "-2147483649", "0000", "+00", "1e3"] {
        assert_eq!(parse_i32(s), s.parse::<i32>().ok(), "{:?}", s);
    }
}

#[test]
fn same_text_compares_char_by_char() {
    assert!(same_text("alpha", "alpha"));
    assert!(same_text("", ""));
    assert!(!same_text("alpha", "Alpha"));
    assert!(!same_text("alpha", "alpha "));
}

#[test]
fn chars_of_lists_the_chars() {
    assert_eq!(chars_of("aé✓"), vec!['a', 'é', '✓']);
    assert_eq!(chars_of(""), Vec::<char>::new());
}

#[test]
fn text_or_falls_back_only_where_there_is_no_text() {
    assert_eq!(text_or(&Some("x".to_string()), "fallback"), "x");
    assert_eq!(text_or(&Some(String::new()), "fallback"), "");
    assert_eq!(text_or(&None, "fallback"), "fallback");
}
