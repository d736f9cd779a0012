use std::time::Duration;

use desktop_supervisor::parse::{find_text, read_signed, read_unsigned, space, split, trimmed};
use desktop_supervisor::text::{chars_of, concat3, decimal_string, string_of};
use desktop_supervisor::vm::error::duration_string;

#[test]
fn decimal_matches_the_standard_library() {
    for n in [0u64, 1, 9, 10, 11, 99, 100, 101, 8080, 65535, 4294967295, u64::MAX] {
        assert_eq!(decimal_string(n), n.to_string());
    }
    assert_eq!(decimal_string(1234567890), "1234567890");
}

#[test]
fn characters_round_trip() {
    for s in ["", "a", "héllo wörld", "日本語/パス", "a\\b"] {
        assert_eq!(string_of(&chars_of(s)), s);
    }
    assert_eq!(chars_of("añ").len(), 2);
}

#[test]
fn concatenation_keeps_order() {
    assert_eq!(desktop_supervisor::text::concat2("ab", "cd"), "abcd");
    assert_eq!(concat3("a", "", "c"), "ac");
}

#[test]
fn duration_text_matches_the_standard_library() {
    for ms in [0u64, 1, 100, 999, 1000, 1001, 1010, 1100, 1500, 2000, 5000, 120000, 61234, 90050] {
        assert_eq!(duration_string(ms), format!("{:?}", Duration::from_millis(ms)));
    }
    assert_eq!(duration_string(100), "100ms");
    assert_eq!(duration_string(1500), "1.5s");
    assert_eq!(duration_string(120000), "120s");
}

#[test]
fn white_space_is_that_of_unicode() {
    for n in 0u32..0x3100 {
        if let Some(c) = char::from_u32(n) {
            assert_eq!(space(c), c.is_whitespace());
        }
    }
}

#[test]
fn trimming_matches_the_standard_library() {
    for s in ["", " ", "  a b  ", "\t42\r\n", "x", "\u{a0}y\u{3000}", " \n "] {
        assert_eq!(string_of(&trimmed(&chars_of(s))), s.trim());
    }
}

#[test]
fn splitting_gives_one_piece_more_than_separators() {
    let pieces: Vec<String> = split(&chars_of("a\n\nb\n"), '\n').iter().map(string_of).collect();
    assert_eq!(pieces, vec!["a", "", "b", ""]);
    let pieces: Vec<String> = split(&chars_of(""), '\n').iter().map(string_of).collect();
    assert_eq!(pieces, vec![""]);
    for s in ["13.4.1", "..", "x", "1.2."] {
        let mine: Vec<String> = split(&chars_of(s), '.').iter().map(string_of).collect();
        let std: Vec<String> = s.split('.').map(|p| p.to_string()).collect();
        assert_eq!(mine, std);
    }
}

#[test]
fn unsigned_numbers_are_read_as_the_standard_library_reads_them() {
    for s in ["0", "8080", "+8080", "65535", "65536", "", "+", "-1", "80a", " 80", "0080", "99999999999"] {
        let mine = read_unsigned(&chars_of(s), 65535);
        let std = s.parse::<u16>().ok().map(|v| v as u64);
        assert_eq!(mine, std);
    }
    assert_eq!(read_unsigned(&chars_of("4294967295"), 0xffff_ffff), Some(4294967295));
    assert_eq!(read_unsigned(&chars_of("4294967296"), 0xffff_ffff), None);
}

#[test]
fn signed_numbers_are_read_as_the_standard_library_reads_them() {
    for s in [
        "0", "-0", "+0", "42", "-42", "+42", "2147483647", "2147483648", "-2147483648",
        "-2147483649", "", "-", "+", "--1", "1-", "12x", "００",
    ] {
        assert_eq!(read_signed(&chars_of(s)), s.parse::<i32>().ok());
    }
}

#[test]
fn searching_matches_the_standard_library() {
    for (hay, needle) in [
        ("HTTP/1.1 200 OK\r\n", "200 OK"),
        ("{\"status\":\"ok\"}", "ok"),
        ("", ""),
        ("", "a"),
        ("abc", ""),
        ("aab", "ab"),
        ("abc", "abcd"),
        ("abc", "c"),
        ("abc", "d"),
    ] {
        assert_eq!(find_text(&chars_of(hay), &chars_of(needle)), hay.contains(needle));
    }
}
