use normify::decimal::{decimal_text, parse_u64_text};
use normify::text::{
    chars_of, eq_ignore_case, followed_by, is_space_char, same_text, text_of, to_lower_char,
    to_upper, to_upper_char, trim_text,
};
use normify::tokens::{join_pair, split_text, split_text_once};

#[test]
fn upper_case_touches_ascii_letters_only() {
    assert_eq!(to_upper("abcxyz"), "ABCXYZ");
    assert_eq!(to_upper("AbC-12_z"), "ABC-12_Z");
    assert_eq!(to_upper("`{@["), "`{@[");
    assert_eq!(to_upper("straße µ"), "STRAßE µ");
    assert_eq!(to_upper(""), "");
}

#[test]
fn comparisons() {
    assert!(same_text("perp", "perp"));
    assert!(!same_text("perp", "PERP"));
    assert!(!same_text("perp", "perps"));
    assert!(eq_ignore_case("PeRp", "perp"));
    assert!(eq_ignore_case("", ""));
    assert!(!eq_ignore_case("perp", "perps"));
    assert!(!eq_ignore_case("@", "`"));
    assert!(!eq_ignore_case("[", "{"));
    assert!(!eq_ignore_case("K", "\u{212A}"));
}

#[test]
fn chars_and_slices() {
    let chars = chars_of("héllo");
    assert_eq!(chars, vec!['h', 'é', 'l', 'l', 'o']);
    assert_eq!(text_of(&chars, 1, 3), "él");
    assert_eq!(text_of(&chars, 2, 2), "");
    assert_eq!(followed_by("ab", "cd"), "abcd");
}

#[test]
fn trim_removes_white_space_at_both_ends() {
    assert_eq!(trim_text("  a b \t\n"), "a b");
    assert_eq!(trim_text("\u{a0}\u{2003}x\u{3000}\u{85}"), "x");
    assert_eq!(trim_text("   "), "");
    assert_eq!(trim_text(""), "");
    assert_eq!(trim_text("\u{200b}x"), "\u{200b}x");
    for c in ['\u{9}', '\u{d}', '\u{20}', '\u{1680}', '\u{2000}', '\u{200a}', '\u{2028}', '\u{2029}', '\u{202f}', '\u{205f}'] {
        assert_eq!(trim_text(&format!("{}x{}", c, c)), "x");
    }
    for c in ['\u{8}', '\u{e}', '\u{1f}', '\u{180e}', '\u{200b}', '\u{feff}'] {
        let text = format!("{}x{}", c, c);
        assert_eq!(trim_text(&text), text.trim());
    }
}

#[test]
fn split_keeps_empty_pieces() {
    assert_eq!(split_text("a-b-c", '-'), vec!["a", "b", "c"]);
    assert_eq!(split_text("", '-'), vec![""]);
    assert_eq!(split_text("-", '-'), vec!["", ""]);
    assert_eq!(split_text("a--b-", '-'), vec!["a", "", "b", ""]);
    assert_eq!(split_text("abc", '-'), vec!["abc"]);
}

#[test]
fn split_once_cuts_at_the_first_separator() {
    assert_eq!(split_text_once("a_b_c", '_'), Some((String::from("a"), String::from("b_c"))));
    assert_eq!(split_text_once("_", '_'), Some((String::new(), String::new())));
    assert_eq!(split_text_once("abc", '_'), None);
    assert_eq!(join_pair("a", '_', "b"), "a_b");
}

#[test]
fn split_then_join() {
    for text in ["a-b-c", "", "-", "a--b-", "abc"] {
        let pieces = split_text(text, '-');
        let mut joined = pieces[0].clone();
        for piece in &pieces[1..] {
            joined = join_pair(&joined, '-', piece);
        }
        assert_eq!(joined, text);
    }
}

#[test]
fn unsigned_numbers() {
    assert_eq!(parse_u64_text("0"), Some(0));
    assert_eq!(parse_u64_text("100000"), Some(100000));
    assert_eq!(parse_u64_text("+42"), Some(42));
    assert_eq!(parse_u64_text("007"), Some(7));
    assert_eq!(parse_u64_text("18446744073709551615"), Some(u64::MAX));
    assert_eq!(parse_u64_text("18446744073709551616"), None);
    assert_eq!(parse_u64_text("99999999999999999999"), None);
    assert_eq!(parse_u64_text("000000000000000000000001"), Some(1));
    assert_eq!(parse_u64_text(""), None);
    assert_eq!(parse_u64_text("+"), None);
    assert_eq!(parse_u64_text("++1"), None);
    assert_eq!(parse_u64_text("-1"), None);
    assert_eq!(parse_u64_text("1_000"), None);
    assert_eq!(parse_u64_text("1.5"), None);
    assert_eq!(parse_u64_text(" 1"), None);
    assert_eq!(parse_u64_text("1e3"), None);
    assert_eq!(parse_u64_text("١٢"), None);
}

#[test]
fn decimal_forms() {
    assert_eq!(decimal_text(0), "0");
    assert_eq!(decimal_text(9), "9");
    assert_eq!(decimal_text(10), "10");
    assert_eq!(decimal_text(100000), "100000");
    assert_eq!(decimal_text(u64::MAX), "18446744073709551615");
    for n in [0u64, 1, 99, 100, 12345678901234567890, u64::MAX] {
        assert_eq!(parse_u64_text(&decimal_text(n)), Some(n));
        assert_eq!(decimal_text(n), n.to_string());
    }
}

#[test]
fn every_character_agrees_with_std() {
    for code in 0..=0x10FFFFu32 {
        if let Some(c) = char::from_u32(code) {
            assert_eq!(is_space_char(c), c.is_whitespace(), "{:x}", code);
            assert_eq!(to_upper_char(c), c.to_ascii_uppercase(), "{:x}", code);
            assert_eq!(to_lower_char(c), c.to_ascii_lowercase(), "{:x}", code);
        }
    }
}

#[test]
fn texts_agree_with_std() {
    let samples = [
        "", " ", "a", "A-b_C", "  BTC-usd\t", "+1", "ß", "\u{3000}x y\u{2009}", "perp", "PERP",
        "18446744073709551615", "18446744073709551616", "0010", "+", "-0", "+-1", "12a",
    ];
    for a in samples {
        assert_eq!(to_upper(a), a.to_ascii_uppercase());
        assert_eq!(trim_text(a), a.trim());
        assert_eq!(parse_u64_text(a), a.parse::<u64>().ok());
        assert_eq!(split_text(a, '-'), a.split('-').collect::<Vec<&str>>());
        assert_eq!(
            split_text_once(a, '_'),
            a.split_once('_').map(|(x, y)| (String::from(x), String::from(y)))
        );
        for b in samples {
            assert_eq!(eq_ignore_case(a, b), a.eq_ignore_ascii_case(b));
            assert_eq!(same_text(a, b), a == b);
        }
    }
}

#[test]
fn many_texts_agree_with_std() {
    let alphabet = [
        '0', '1', '9', '+', '-', '_', '.', ' ', '\t', '\u{a0}', 'a', 'z', 'A', 'Z', 'p', 'E', 'é',
        '\u{3000}',
    ];
    let mut state: u64 = 0x2545F4914F6CDD1D;
    let mut next = move || {
        state ^= state << 13;
        state ^= state >> 7;
        state ^= state << 17;
        state
    };
    let mut previous = String::new();
    for _ in 0..20000 {
        let length = (next() % 7) as usize;
        let text: String =
            (0..length).map(|_| alphabet[(next() % alphabet.len() as u64) as usize]).collect();
        assert_eq!(to_upper(&text), text.to_ascii_uppercase());
        assert_eq!(trim_text(&text), text.trim());
        assert_eq!(parse_u64_text(&text), text.parse::<u64>().ok());
        assert_eq!(split_text(&text, '-'), text.split('-').collect::<Vec<&str>>());
        assert_eq!(
            split_text_once(&text, '_'),
            text.split_once('_').map(|(x, y)| (String::from(x), String::from(y)))
        );
        assert_eq!(eq_ignore_case(&text, &previous), text.eq_ignore_ascii_case(&previous));
        assert_eq!(
            eq_ignore_case(&text, &text.to_ascii_lowercase()),
            text.eq_ignore_ascii_case(&text.to_ascii_lowercase())
        );
        previous = text;
    }
}

#[test]
fn many_numbers_agree_with_std() {
    let mut state: u64 = 0x9E3779B97F4A7C15;
    for _ in 0..20000 {
        state ^= state << 13;
        state ^= state >> 7;
        state ^= state << 17;
        let n = state >> (state % 64);
        assert_eq!(decimal_text(n), n.to_string());
        assert_eq!(parse_u64_text(&n.to_string()), Some(n));
        let wide = format!("{}{}", n, state % 10);
        assert_eq!(parse_u64_text(&wide), wide.parse::<u64>().ok());
    }
}
