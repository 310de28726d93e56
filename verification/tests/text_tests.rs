use waveshare_s3_3p::text::{
    append_decimal, chars_of, contains, decimal_of, digits_of, is_whitespace, lowered,
    matches_at, same_chars, same_text, slice, starts_with, string_of, to_ascii_lowercase_char,
    trim_start_index, trimmed,
};

fn cs(s: &str) -> Vec<char> {
    s.chars().collect()
}

#[test]
fn chars_and_strings_round_trip() {
    for s in ["", "a", "héllo wörld", "日本語", "tab\there"] {
        assert_eq!(chars_of(s), cs(s));
        assert_eq!(string_of(&cs(s)), s);
    }
}

#[test]
fn whitespace_agrees_with_the_standard_library() {
    for code in 0..=0x3100u32 {
        if let Some(c) = char::from_u32(code) {
            assert_eq!(is_whitespace(c), c.is_whitespace());
        }
    }
    assert!(!is_whitespace('\u{FEFF}'));
    assert!(!is_whitespace('\u{10FFFF}'));
}

#[test]
fn trimming_agrees_with_the_standard_library() {
    for s in ["", " ", "a", " a", "a ", "  a b  ", "\t\r\n x \u{3000}", "\u{00A0}a\u{2028}", " \0 "] {
        assert_eq!(trimmed(&cs(s)), cs(s.trim()));
        assert_eq!(trim_start_index(&cs(s)), s.chars().count() - s.trim_start().chars().count());
    }
}

#[test]
fn lower_case_touches_only_ascii_capitals() {
    assert_eq!(lowered(&cs("Tornado WARNING @[`{ ÄÖ")), cs("tornado warning @[`{ ÄÖ"));
    assert_eq!(to_ascii_lowercase_char('A'), 'a');
    assert_eq!(to_ascii_lowercase_char('Z'), 'z');
    assert_eq!(to_ascii_lowercase_char('@'), '@');
    assert_eq!(to_ascii_lowercase_char('['), '[');
    assert_eq!(to_ascii_lowercase_char('É'), 'É');
}

#[test]
fn comparing_texts() {
    assert!(same_chars(&cs(""), &cs("")));
    assert!(same_chars(&cs("abc"), &cs("abc")));
    assert!(!same_chars(&cs("abc"), &cs("abd")));
    assert!(!same_chars(&cs("abc"), &cs("ab")));
    assert!(same_text(&cs("auto"), "auto"));
    assert!(!same_text(&cs("auto"), "Auto"));
}

#[test]
fn slices() {
    assert_eq!(slice(&cs("hello"), 1, 4), cs("ell"));
    assert_eq!(slice(&cs("hello"), 0, 5), cs("hello"));
    assert_eq!(slice(&cs("hello"), 5, 5), cs(""));
}

#[test]
fn searching() {
    let hay = cs("flash flood warning");
    assert!(contains(&hay, &cs("warning")));
    assert!(contains(&hay, &cs("flash")));
    assert!(contains(&hay, &cs("h f")));
    assert!(contains(&hay, &cs("")));
    assert!(!contains(&hay, &cs("watch")));
    assert!(!contains(&hay, &cs("warnings")));
    assert!(!contains(&cs(""), &cs("a")));
    assert!(contains(&cs(""), &cs("")));
    assert!(starts_with(&hay, &cs("flash")));
    assert!(starts_with(&hay, &cs("")));
    assert!(!starts_with(&hay, &cs("lash")));
    assert!(!starts_with(&cs("fl"), &cs("flash")));
    assert!(matches_at(&hay, &cs("flood"), 6));
    assert!(!matches_at(&hay, &cs("flood"), 5));
    assert!(matches_at(&hay, &cs(""), 19));
    assert!(!matches_at(&hay, &cs(""), 20));
    assert!(!matches_at(&hay, &cs("g"), usize::MAX));
}

#[test]
fn decimal_numbers() {
    assert_eq!(digits_of(0), cs("0"));
    assert_eq!(digits_of(7), cs("7"));
    assert_eq!(digits_of(10), cs("10"));
    assert_eq!(digits_of(1_203_040), cs("1203040"));
    assert_eq!(digits_of(u64::MAX), cs("18446744073709551615"));
    assert_eq!(decimal_of(0), cs("0"));
    assert_eq!(decimal_of(-1), cs("-1"));
    assert_eq!(decimal_of(-120), cs("-120"));
    assert_eq!(decimal_of(i64::MAX), cs("9223372036854775807"));
    assert_eq!(decimal_of(i64::MIN), cs("-9223372036854775808"));
    let mut s = String::from("n=");
    append_decimal(&mut s, 429);
    append_decimal(&mut s, -5);
    assert_eq!(s, "n=429-5");
}
