use openlibrary::number::{i32_to_string, parse_i32, parse_u64, u64_to_string};
use openlibrary::text::{after_last, ends_with, starts_with, str_eq, trim, trim_end, utf8_width, CharClass};

#[test]
fn white_space_is_what_char_says() {
    for n in 0..=0x10ffffu32 {
        if let Some(c) = char::from_u32(n) {
            assert_eq!(CharClass::White.contains(c), c.is_whitespace(), "{n:x}");
        }
    }
}

#[test]
fn widths_are_what_char_says() {
    for n in 0..=0x10ffffu32 {
        if let Some(c) = char::from_u32(n) {
            assert_eq!(utf8_width(c), c.len_utf8(), "{n:x}");
        }
    }
}

#[test]
fn trim_agrees_with_std() {
    for s in ["", " ", "a", " a ", "\u{a0}x y\u{3000}\n", "\t\r\n", "é ", " é"] {
        assert_eq!(trim(s), s.trim());
    }
}

#[test]
fn trim_end_takes_one_class() {
    assert_eq!(trim_end("http://x//", CharClass::Slash), "http://x");
    assert_eq!(trim_end("//", CharClass::Slash), "");
    assert_eq!(trim_end("row\r\n\n", CharClass::LineEnd), "row");
    assert_eq!(trim_end("row \n", CharClass::LineEnd), "row ");
    assert_eq!(trim_end("a-b--", CharClass::Hyphen), "a-b");
}

#[test]
fn after_last_agrees_with_rsplit() {
    for s in ["", "/", "a", "/a", "a/", "/works/OL1W", "bytes 0-9/10", "é/ü/ß"] {
        assert_eq!(after_last(s, '/'), s.rsplit('/').next().unwrap());
    }
}

#[test]
fn comparisons() {
    assert!(str_eq("", ""));
    assert!(str_eq("eng", "eng"));
    assert!(!str_eq("eng", "en"));
    assert!(!str_eq("eng", "enG"));
    assert!(starts_with("ol_dump_x", "ol_dump_"));
    assert!(!starts_with("ol", "ol_dump_"));
    assert!(!starts_with("xol_dump_", "ol_dump_"));
    assert!(ends_with("a.txt.gz", ".txt.gz"));
    assert!(!ends_with("a.txt.gz.part", ".txt.gz"));
    assert!(!ends_with("gz", ".txt.gz"));
}

#[test]
fn unsigned_numbers_agree_with_std() {
    for s in [
        "", "+", "-", "0", "7", "+7", "-7", "007", "18446744073709551615", "18446744073709551616",
        "99999999999999999999999", "1x", "x1", " 1", "1 ", "++1", "٣", "000000000000000000000000012",
    ] {
        assert_eq!(parse_u64(s), s.parse::<u64>().ok(), "{s:?}");
    }
    for n in [0, 9, 10, 8192, 1_000_000, u64::MAX] {
        assert_eq!(u64_to_string(n), n.to_string());
        assert_eq!(parse_u64(&u64_to_string(n)), Some(n));
    }
}

#[test]
fn signed_numbers_agree_with_std() {
    for s in [
        "", "+", "-", "0", "-0", "+0", "312", "-312", "+312", "2147483647", "2147483648",
        "-2147483648", "-2147483649", "--1", "-+1", "12a", "1e3", "0012",
    ] {
        assert_eq!(parse_i32(s), s.parse::<i32>().ok(), "{s:?}");
    }
    for n in [0, 1, -1, 42, i32::MAX, i32::MIN] {
        assert_eq!(i32_to_string(n), n.to_string());
        assert_eq!(parse_i32(&i32_to_string(n)), Some(n));
    }
}
