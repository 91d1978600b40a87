use webds::text::{chars_of, eq_str, find_char, parse_u8, to_ascii_lowercase, trim_bounds};

fn trimmed(s: &str) -> String {
    let chars = chars_of(s);
    let (a, b) = trim_bounds(&chars, 0, chars.len());
    chars[a..b].iter().collect()
}

fn parsed(s: &str) -> Option<u8> {
    let chars = chars_of(s);
    parse_u8(&chars, 0, chars.len())
}

#[test]
fn trimming_matches_str_trim() {
    for s in ["", "  ", "a", " a ", "\t\na b\r\n", "\u{2003}x\u{3000}", "\u{85}y", "z\u{200b}"] {
        assert_eq!(trimmed(s), s.trim(), "{s:?}");
    }
}

#[test]
fn surrounding_whitespace_does_not_change_the_trimmed_text() {
    for (before, after) in [(" ", "\t"), ("\u{a0}\n", ""), ("", "\u{2028} ")] {
        for a in ["", "ab", " c d "] {
            assert_eq!(trimmed(&format!("{before}{a}{after}")), trimmed(a));
        }
    }
}

#[test]
fn u8_parsing_matches_from_str() {
    for s in ["0", "255", "256", "+7", "+", "-0", "", "007", "0000000000000001", "1a", " 1", "99999999999"] {
        assert_eq!(parsed(s), s.parse::<u8>().ok(), "{s:?}");
    }
}

#[test]
fn lower_case_and_comparison() {
    let chars = chars_of("AbC-Ü");
    let lower: String = to_ascii_lowercase(&chars, 0, chars.len()).into_iter().collect();
    assert_eq!(lower, "abc-Ü");
    assert!(eq_str(&chars, 1, 3, "bC"));
    assert!(!eq_str(&chars, 1, 3, "bc"));
    assert!(!eq_str(&chars, 1, 3, "bC-"));
}

#[test]
fn first_space() {
    let chars = chars_of("a b c");
    assert_eq!(find_char(&chars, 0, 5, ' '), Some(1));
    assert_eq!(find_char(&chars, 2, 5, ' '), Some(1));
    assert_eq!(find_char(&chars, 4, 5, ' '), None);
}
