use gkeys::text::{
    chars_of, contains_text, join, lines_of, parse_u8, push_decimal, same_text,
    same_text_ignoring_ascii_case, skip_leading, split_on, starts_with, text_is, to_ascii_lower,
    trim,
};

fn cs(s: &str) -> Vec<char> {
    s.chars().collect()
}

fn strs(parts: &[Vec<char>]) -> Vec<String> {
    parts.iter().map(|p| p.iter().collect()).collect()
}

#[test]
fn chars_are_the_characters() {
    assert_eq!(chars_of("héllo"), vec!['h', 'é', 'l', 'l', 'o']);
    assert_eq!(chars_of(""), Vec::<char>::new());
}

#[test]
fn join_puts_the_separator_between() {
    assert_eq!(join(&vec![], ", "), "");
    assert_eq!(join(&vec!["a".to_string()], ", "), "a");
    assert_eq!(join(&vec!["a".to_string(), "b".to_string()], ", "), "a, b");
    assert_eq!(
        join(&vec!["".to_string(), "x".to_string(), "".to_string()], "+"),
        "+x+"
    );
}

#[test]
fn same_text_compares_texts() {
    assert!(same_text("", ""));
    assert!(same_text("MEMORY_1", "MEMORY_1"));
    assert!(!same_text("MEMORY_1", "MEMORY_2"));
    assert!(!same_text("MEMORY_1", "MEMORY_"));
    assert!(!same_text("é", "e"));
    assert!(same_text("é", "é"));
}

#[test]
fn text_is_compares_characters_with_a_string() {
    assert!(text_is(&cs("abc"), "abc"));
    assert!(!text_is(&cs("abc"), "abd"));
    assert!(!text_is(&cs("abc"), "ab"));
    assert!(!text_is(&cs("ab"), "abc"));
    assert!(text_is(&cs(""), ""));
    assert!(!text_is(&cs(""), "a"));
}

#[test]
fn ascii_case_is_ignored() {
    assert!(same_text_ignoring_ascii_case("TrUe", "true"));
    assert!(!same_text_ignoring_ascii_case("É", "é"));
    assert!(!same_text_ignoring_ascii_case("a", "ab"));
    assert_eq!(to_ascii_lower('A'), 'a');
    assert_eq!(to_ascii_lower('Z'), 'z');
    assert_eq!(to_ascii_lower('a'), 'a');
    assert_eq!(to_ascii_lower('@'), '@');
    assert_eq!(to_ascii_lower('['), '[');
}

#[test]
fn decimal_digits() {
    for n in 0u8..=255 {
        let mut s = "x".to_string();
        push_decimal(&mut s, n);
        assert_eq!(s, format!("x{}", n));
    }
}

#[test]
fn u8_is_parsed_as_the_standard_library_does() {
    for text in [
        "0", "1", "9", "10", "255", "256", "999", "007", "+5", "+", "", "-1", " 1", "1 ", "1a",
        "0000000000000000000255", "0000000000000000000256", "++1", "+0", "٣",
    ] {
        assert_eq!(parse_u8(&cs(text)), text.parse::<u8>().ok());
    }
    for n in 0u16..1000 {
        let text = format!("{}", n);
        assert_eq!(parse_u8(&cs(&text)), text.parse::<u8>().ok());
    }
    assert_eq!(parse_u8(&cs("42")), Some(42));
    assert_eq!(parse_u8(&cs("256")), None);
}

#[test]
fn prefix_test() {
    assert!(starts_with(&cs("MEMORY_1"), &cs("MEMORY_")));
    assert!(starts_with(&cs("MEMORY_"), &cs("MEMORY_")));
    assert!(!starts_with(&cs("MEMORY"), &cs("MEMORY_")));
    assert!(!starts_with(&cs("xMEMORY_1"), &cs("MEMORY_")));
    assert!(starts_with(&cs("abc"), &cs("")));
}

#[test]
fn split_gives_one_piece_more_than_separators() {
    for text in ["", "a", "a+b", "+", "a++b", "+a+", "ctrl+shift+t"] {
        let expected: Vec<String> = text.split('+').map(|s| s.to_string()).collect();
        assert_eq!(strs(&split_on(&cs(text), '+')), expected);
    }
    assert_eq!(strs(&split_on(&cs("a,b"), ',')), vec!["a".to_string(), "b".to_string()]);
}

#[test]
fn lines_are_split_as_the_standard_library_does() {
    for text in [
        "", "a", "a\n", "a\nb", "a\r\nb\r\n", "\n", "\n\n", "a\n\nb", "a\r", "a\r\n", "\r\n",
        "a\rb\n", "a\r\r\n", "x\ny\r",
    ] {
        let expected: Vec<String> = text.lines().map(|s| s.to_string()).collect();
        assert_eq!(strs(&lines_of(&cs(text))), expected);
    }
}

#[test]
fn leading_copies_are_skipped() {
    for (text, pattern) in [
        ("0000046D", "0000"),
        ("00000000C33F", "0000"),
        ("046D", "0000"),
        ("000046D", "0000"),
        ("0000", "0000"),
        ("", "0000"),
        ("abc", ""),
    ] {
        let skipped = skip_leading(&cs(text), &cs(pattern));
        let rest: String = cs(text)[skipped..].iter().collect();
        assert_eq!(rest, text.trim_start_matches(pattern));
    }
    assert_eq!(skip_leading(&cs("0000046D"), &cs("0000")), 4);
}

#[test]
fn search_finds_a_text_anywhere() {
    for (text, needle) in [
        ("/sys/devices/usb1/1-2/1-2:1.1/0003:046D:C33F.0005", ":1.1/"),
        ("/sys/devices/usb1/1-2/1-2:1.0/0003:046D:C33F.0005", ":1.1/"),
        (":1.1/", ":1.1/"),
        ("x:1.1", ":1.1/"),
        ("", ":1.1/"),
        ("abc", ""),
        ("", ""),
        ("aab", "ab"),
    ] {
        assert_eq!(contains_text(&cs(text), &cs(needle)), text.contains(needle));
    }
}

#[test]
fn trim_takes_white_space_off_both_ends() {
    for text in [
        "",
        " ",
        "a",
        " a",
        "a ",
        "  ctrl \t",
        "\n Hello\tworld\t\n",
        "a b",
        " a  b ",
        "\u{a0}x\u{3000}",
        "\u{2003}Tab\n",
        "\u{200b}x\u{200b}",
        "\u{85}\u{1680}\u{2028}\u{2029}\u{202f}\u{205f}y\u{2000}\u{200a}",
        " \t\r\n\u{b}\u{c}",
        "é ",
    ] {
        let expected: Vec<char> = text.trim().chars().collect();
        assert_eq!(trim(&cs(text)), expected);
    }
    assert_eq!(trim(&cs("  ctrl \t")), cs("ctrl"));
    assert_eq!(trim(&cs(" a  b ")), cs("a  b"));
}

#[test]
fn trim_agrees_with_the_standard_library_on_every_character() {
    for code in 0u32..=0x10ffff {
        if let Some(c) = char::from_u32(code) {
            let text = [c, 'x', c];
            let owned: String = text.iter().collect();
            let expected: Vec<char> = owned.trim().chars().collect();
            assert_eq!(trim(&text), expected);
        }
    }
}
