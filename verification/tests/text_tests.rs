use kdwm::text::{chars_of, parse_decimal, split_chars, string_of, trim, trim_chars};

#[test]
fn trim_drops_surrounding_whitespace() {
    assert_eq!(trim("  a b \n"), "a b");
    assert_eq!(trim("\t\r\nx"), "x");
    assert_eq!(trim("\u{3000}wide\u{85}"), "wide");
    assert_eq!(trim("\u{a0}\u{2009}y\u{202f}"), "y");
    assert_eq!(trim("inner  space"), "inner  space");
}

#[test]
fn trim_of_blank_is_empty() {
    assert_eq!(trim(""), "");
    assert_eq!(trim("   \n\t"), "");
}

#[test]
fn trim_agrees_with_std() {
    for s in ["", " a ", "\u{1680}b\u{205f}", "\u{200b}c", "x\u{2028}", " \u{2029} "] {
        assert_eq!(trim(s), s.trim());
    }
}

#[test]
fn trim_twice_is_trim_once() {
    for s in ["  a  ", "\n\nb c\n", "", "   "] {
        let once = trim(s);
        assert_eq!(trim(&once), once);
    }
}

#[test]
fn trim_chars_works_on_chars() {
    let v: Vec<char> = " ab ".chars().collect();
    assert_eq!(trim_chars(&v), vec!['a', 'b']);
}

#[test]
fn chars_and_string_round_trip() {
    let v = chars_of("h\u{e9}llo");
    assert_eq!(v, vec!['h', '\u{e9}', 'l', 'l', 'o']);
    assert_eq!(string_of(&v), "h\u{e9}llo");
}

#[test]
fn split_keeps_empty_pieces() {
    let v: Vec<char> = "a\nb\n".chars().collect();
    assert_eq!(split_chars(&v, '\n'), vec!["a", "b", ""]);
    let v: Vec<char> = "".chars().collect();
    assert_eq!(split_chars(&v, '\n'), vec![""]);
    let v: Vec<char> = "\n\n".chars().collect();
    assert_eq!(split_chars(&v, '\n'), vec!["", "", ""]);
}

#[test]
fn split_then_join_gives_back_the_text() {
    for s in ["one\ntwo\nthree", "", "\n", "x\n\ny"] {
        let v: Vec<char> = s.chars().collect();
        let pieces = split_chars(&v, '\n');
        assert_eq!(pieces.join("\n"), s);
        let std_pieces: Vec<&str> = s.split('\n').collect();
        assert_eq!(pieces, std_pieces);
    }
}

#[test]
fn parse_reads_decimal_numbers() {
    let max = u32::MAX as u64;
    assert_eq!(parse_decimal("42", max), Some(42));
    assert_eq!(parse_decimal("+7", max), Some(7));
    assert_eq!(parse_decimal("007", max), Some(7));
    assert_eq!(parse_decimal("4294967295", max), Some(4294967295));
}

#[test]
fn parse_refuses_what_std_refuses() {
    let max = u32::MAX as u64;
    for s in ["", "+", "-", "-1", "4294967296", "12a", " 1", "++1", "1.5"] {
        assert_eq!(parse_decimal(s, max), None, "{s:?}");
        assert!(s.parse::<u32>().is_err());
    }
}

#[test]
fn parse_agrees_with_std_for_usize() {
    let max = usize::MAX as u64;
    for s in ["0", "3", "+12", "18446744073709551615", "18446744073709551616", "x"] {
        assert_eq!(parse_decimal(s, max).map(|n| n as usize), s.parse::<usize>().ok());
    }
}

#[test]
fn parse_reads_back_written_numbers() {
    for n in [0u32, 9, 10, 4000000, u32::MAX] {
        assert_eq!(parse_decimal(&n.to_string(), u32::MAX as u64), Some(n as u64));
    }
}
