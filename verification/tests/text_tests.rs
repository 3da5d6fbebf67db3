use video_stream_be::text::{
    chars_of, first_segment_end, last_segment_start, parse_i32_range, push_owned, push_range,
    push_replaced, push_signed, push_string, push_text, push_unsigned, range_eq,
    range_eq_ignoring_ascii_case, slice_of, strip_bounds, strip_text, text_eq, text_of,
    text_of_range, trim, Strip,
};

fn parse(text: &str) -> Option<i32> {
    let all = chars_of(text);
    parse_i32_range(&all, 0, all.len())
}

#[test]
fn text_goes_to_characters_and_back() {
    for text in ["", "a", "héllo wörld", "日本語", "a\u{0}b"] {
        let all = chars_of(text);
        assert_eq!(all, text.chars().collect::<Vec<char>>());
        assert_eq!(text_of(&all), text);
    }
    let all = chars_of("héllo");
    assert_eq!(text_of_range(&all, 1, 4), "éll");
    assert_eq!(text_of_range(&all, 2, 2), "");
    assert_eq!(slice_of(&all, 0, 2), vec!['h', 'é']);
    let mut out = vec!['x'];
    push_range(&mut out, &all, 3, 5);
    push_text(&mut out, "é!");
    assert_eq!(out, vec!['x', 'l', 'o', 'é', '!']);
}

#[test]
fn numbers_are_written_in_decimal() {
    let cases: [(i64, &str); 9] = [
        (0, "0"),
        (7, "7"),
        (10, "10"),
        (-1, "-1"),
        (1234567890, "1234567890"),
        (-2147483648, "-2147483648"),
        (i64::MAX, "9223372036854775807"),
        (i64::MIN, "-9223372036854775808"),
        (-1000, "-1000"),
    ];
    for (n, expected) in cases {
        let mut out = Vec::new();
        push_signed(&mut out, n);
        assert_eq!(text_of(&out), expected);
        assert_eq!(text_of(&out), n.to_string());
    }
    for n in [0u64, 9, 10, 99, 100, 18446744073709551615] {
        let mut out = vec!['#'];
        push_unsigned(&mut out, n);
        assert_eq!(text_of(&out), format!("#{n}"));
    }
}

#[test]
fn decimal_integers_are_read_like_the_standard_parser() {
    let cases = [
        "0", "7", "-7", "+7", "007", "-0", "+0", "2147483647", "2147483648", "-2147483648",
        "-2147483649", "99999999999999999999999", "", "+", "-", "--1", "+-1", "1 ", " 1", "1_000",
        "1.0", "1e3", "0x10", "１２", "٣", "12a", "a12", "-+5", "0000000000000000000000012",
        "-00000000000000000000002147483648",
    ];
    for text in cases.iter() {
        assert_eq!(parse(text), text.parse::<i32>().ok(), "{:?}", text);
    }
    let all = chars_of("ab-42cd");
    assert_eq!(parse_i32_range(&all, 2, 5), Some(-42));
    assert_eq!(parse_i32_range(&all, 2, 2), None);
    assert_eq!(parse_i32_range(&all, 2, 3), None);
}

#[test]
fn whitespace_is_the_unicode_property() {
    for code in 0..=0x10FFFFu32 {
        if let Some(c) = char::from_u32(code) {
            assert_eq!(Strip::Whitespace.is_stripped(c), c.is_whitespace(), "U+{:04X}", code);
        }
    }
    assert!(Strip::Char('/').is_stripped('/'));
    assert!(!Strip::Char('/').is_stripped(' '));
}

#[test]
fn trimming_agrees_with_the_standard_library() {
    let cases = [
        "", " ", "a", "  a  ", "\t\n a b \r\n", "\u{a0}x\u{2003}", "\u{3000}\u{3000}", " a\u{85}",
        "no-space", " \u{200b} ", "\u{feff}x", "  inner  space  ",
    ];
    for text in cases.iter() {
        assert_eq!(trim(text), text.trim(), "{:?}", text);
        assert_eq!(strip_text(text, Strip::Whitespace), text.trim(), "{:?}", text);
    }
    for text in ["", "/", "//a//", "a", "/a/b/", "///"] {
        assert_eq!(strip_text(text, Strip::Char('/')), text.trim_matches('/'), "{:?}", text);
    }
    let all = chars_of("  ab ");
    assert_eq!(strip_bounds(&all, Strip::Whitespace), (2, 4));
    let blank = chars_of("   ");
    let (from, to) = strip_bounds(&blank, Strip::Whitespace);
    assert_eq!(from, to);
}

#[test]
fn segments_are_found_like_split() {
    for text in ["", "a", "a.b", "a.b.c", ".", "..", "a.", ".a", "no dots"] {
        let all = chars_of(text);
        let start = last_segment_start(&all, '.');
        assert_eq!(text_of_range(&all, start, all.len()), text.split('.').last().unwrap(), "{:?}", text);
        let end = first_segment_end(&all, '.');
        assert_eq!(text_of_range(&all, 0, end), text.split('.').next().unwrap(), "{:?}", text);
    }
}

#[test]
fn replacement_agrees_with_the_standard_library() {
    for (text, from, to) in [
        ("1000k", 'k', "000"),
        ("kk", 'k', "000"),
        ("", 'k', "000"),
        ("a b  c", ' ', "_"),
        ("a.b.c", '.', ""),
        ("none", 'x', "yy"),
        ("ééé", 'é', "e"),
    ] {
        let mut out = Vec::new();
        push_replaced(&mut out, &chars_of(text), from, to);
        assert_eq!(text_of(&out), text.replace(from, to), "{:?}", text);
    }
}

#[test]
fn texts_are_compared_exactly_or_ignoring_ascii_case() {
    assert!(text_eq("abc", "abc"));
    assert!(!text_eq("abc", "abd"));
    assert!(!text_eq("abc", "ab"));
    assert!(text_eq("", ""));
    let all = chars_of("xxNuLLyy");
    assert!(range_eq(&all, 2, 6, "NuLL"));
    assert!(!range_eq(&all, 2, 6, "null"));
    assert!(!range_eq(&all, 2, 5, "NuLL"));
    for (a, b) in [
        ("null", "NULL"),
        ("NuLl", "nUlL"),
        ("null", "nul"),
        ("", ""),
        ("straße", "STRASSE"),
        ("é", "É"),
        ("K", "\u{212a}"),
        ("a1!", "A1!"),
        ("@", "`"),
        ("[", "{"),
    ] {
        let all = chars_of(a);
        assert_eq!(
            range_eq_ignoring_ascii_case(&all, 0, all.len(), b),
            a.eq_ignore_ascii_case(b),
            "{:?} {:?}",
            a,
            b
        );
    }
}

#[test]
fn lists_of_texts_grow_at_the_end() {
    let mut items = Vec::new();
    push_owned(&mut items, "a");
    push_string(&mut items, "b".to_string());
    push_owned(&mut items, "");
    assert_eq!(items, vec!["a", "b", ""]);
}
