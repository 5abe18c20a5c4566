use teamlens_agent::number::{parse_u64, push_decimal};
use teamlens_agent::text::{
    chars_of, contains, is_whitespace, last_field, lines, replace_char, same_text, take_chars,
    text_of, trim,
};

#[test]
fn white_space_is_that_of_the_standard_library() {
    for code in 0..=0x10ffffu32 {
        if let Some(c) = char::from_u32(code) {
            assert_eq!(is_whitespace(c), c.is_whitespace(), "{:x}", code);
        }
    }
}

#[test]
fn trimming_removes_white_space_at_both_ends() {
    for s in ["", " ", "a", " a b\t\n", "\u{3000}x\u{a0}", "\r\n", "no space"] {
        assert_eq!(trim(s), s.trim());
        assert_eq!(trim(&trim(s)), trim(s));
    }
}

#[test]
fn texts_are_cut_by_characters() {
    assert_eq!(take_chars("héllo", 2), "hé");
    assert_eq!(take_chars("héllo", 5), "héllo");
    assert_eq!(take_chars("héllo", 9), "héllo");
    assert_eq!(take_chars("héllo", 0), "");
    let chars = chars_of("a€c");
    assert_eq!(chars, vec!['a', '€', 'c']);
    assert_eq!(text_of(&chars, 1, 3), "€c");
}

#[test]
fn a_text_is_found_within_another() {
    for (s, pattern) in [
        ("{\"ok\":true}", "ok"),
        ("oook", "ok"),
        ("o k", "ok"),
        ("", "ok"),
        ("ok", ""),
        ("", ""),
        ("aab", "ab"),
        ("ok", "okk"),
    ] {
        assert_eq!(contains(s, pattern), s.contains(pattern), "{:?} {:?}", s, pattern);
    }
}

#[test]
fn characters_are_replaced() {
    assert_eq!(replace_char("a \"b\" c", '"', '\''), "a 'b' c");
    assert_eq!(replace_char("", '"', '\''), "");
}

#[test]
fn texts_are_compared() {
    assert!(same_text("low", "low"));
    assert!(!same_text("low", "Low"));
    assert!(!same_text("low", "lower"));
}

#[test]
fn lines_end_at_line_feeds() {
    for s in ["", "\n", "a", "a\n", "a\nb", "a\r\nb\r\n", "a\r", "\r\n\n\r\n", "a\n\nb\r\r\n", "\r"] {
        let expected: Vec<String> = s.lines().map(|line| line.to_string()).collect();
        assert_eq!(lines(s), expected, "{:?}", s);
    }
}

#[test]
fn the_last_field_follows_the_last_separator() {
    for s in ["", "a", "a=b", "a=b=c", "=", "a=", "==x"] {
        assert_eq!(last_field(s, '='), s.split('=').last().unwrap());
    }
}

#[test]
fn numbers_are_read_as_the_standard_library_reads_them() {
    for s in [
        "0",
        "7",
        "+7",
        "007",
        "18446744073709551615",
        "18446744073709551616",
        "99999999999999999999999",
        "",
        "+",
        "-",
        "-1",
        "++1",
        "1_000",
        " 1",
        "1 ",
        "1a",
        "٣",
        "18446744073709551610x",
    ] {
        assert_eq!(parse_u64(s), s.parse::<u64>().ok(), "{:?}", s);
    }
}

#[test]
fn numbers_are_written_and_read_back() {
    for n in [0u64, 9, 10, 95, 100, 1234567890, u64::MAX] {
        let mut text = String::from("n=");
        push_decimal(&mut text, n);
        assert_eq!(text, format!("n={}", n));
        assert_eq!(parse_u64(&text[2..]), Some(n));
    }
}
