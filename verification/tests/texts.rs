use utermux::clock::{push_date, push_time, CivilDate, TimeOfDay};
use utermux::number::{read_i64, read_unsigned};
use utermux::scan::{
    after_spaces, before_spaces, begins_with, holds_text, leading_word, lines_of, matches_at,
    next_space, position, space, split_first, split_on, trimmed,
};
use utermux::text::{
    chars_of, push_decimal, push_padded2, push_padded4, push_signed_decimal,
};

fn cs(s: &str) -> Vec<char> {
    s.chars().collect()
}

fn strs(pieces: Vec<Vec<char>>) -> Vec<String> {
    pieces.into_iter().map(|p| p.into_iter().collect()).collect()
}

#[test]
fn characters_of_a_text() {
    assert_eq!(chars_of("a中b"), vec!['a', '中', 'b']);
    assert_eq!(chars_of(""), Vec::<char>::new());
}

#[test]
fn decimal_numbers_are_written() {
    let mut s = String::from("n=");
    push_decimal(&mut s, 0);
    push_decimal(&mut s, 7);
    push_decimal(&mut s, 10);
    push_decimal(&mut s, u64::MAX);
    assert_eq!(s, "n=071018446744073709551615");
    let mut s = String::new();
    push_signed_decimal(&mut s, -42);
    push_signed_decimal(&mut s, i64::MIN);
    push_signed_decimal(&mut s, i64::MAX);
    assert_eq!(s, "-42-92233720368547758089223372036854775807");
}

#[test]
fn padded_numbers_are_written() {
    let mut s = String::new();
    push_padded2(&mut s, 0);
    push_padded2(&mut s, 9);
    push_padded2(&mut s, 10);
    push_padded2(&mut s, 255);
    assert_eq!(s, "000910255");
    let mut s = String::new();
    push_padded4(&mut s, 7);
    push_padded4(&mut s, 70);
    push_padded4(&mut s, 700);
    push_padded4(&mut s, 7000);
    push_padded4(&mut s, 70000);
    assert_eq!(s, "000700700700700070000");
}

#[test]
fn dates_and_times_are_written() {
    let mut s = String::new();
    push_date(&mut s, CivilDate { year: 2025, month: 1, day: 9 });
    assert_eq!(s, "2025-01-09");
    let mut s = String::new();
    push_date(&mut s, CivilDate { year: 33, month: 12, day: 31 });
    assert_eq!(s, "0033-12-31");
    let mut s = String::new();
    push_date(&mut s, CivilDate { year: -5, month: 2, day: 3 });
    assert_eq!(s, "-0005-02-03");
    let mut s = String::new();
    push_date(&mut s, CivilDate { year: 12345, month: 2, day: 3 });
    assert_eq!(s, "+12345-02-03");
    let mut s = String::new();
    push_date(&mut s, CivilDate { year: i32::MIN, month: 2, day: 3 });
    assert_eq!(s, "-2147483648-02-03");
    let mut s = String::new();
    push_date(&mut s, CivilDate { year: 9999, month: 2, day: 3 });
    assert_eq!(s, "9999-02-03");
    let mut s = String::new();
    push_date(&mut s, CivilDate { year: 0, month: 2, day: 3 });
    assert_eq!(s, "0000-02-03");
    let mut s = String::new();
    push_time(&mut s, TimeOfDay { hour: 0, minute: 5, second: 59 });
    assert_eq!(s, "00:05:59");
}

#[test]
fn dates_are_written_as_chrono_writes_them() {
    for year in [-262143, -300, -1, 0, 5, 999, 1000, 2025, 9999, 10000, 262142] {
        for (month, day) in [(1u32, 1u32), (3, 7), (12, 31)] {
            let want = chrono::NaiveDate::from_ymd_opt(year, month, day)
                .unwrap()
                .format("%Y-%m-%d")
                .to_string();
            let mut got = String::new();
            push_date(&mut got, CivilDate { year, month, day });
            assert_eq!(got, want);
        }
    }
}

#[test]
fn white_space_is_recognised() {
    for c in [' ', '\t', '\n', '\r', '\u{b}', '\u{c}', '\u{85}', '\u{a0}', '\u{3000}', '\u{2003}'] {
        assert!(space(c));
        assert!(c.is_whitespace());
    }
    for c in ['a', '0', '_', '中', '\u{200b}', '\u{0}'] {
        assert!(!space(c));
    }
    for n in 0..0x3100u32 {
        if let Some(c) = char::from_u32(n) {
            assert_eq!(space(c), c.is_whitespace());
        }
    }
}

#[test]
fn scanning_positions() {
    let s = cs("  ab cd  ");
    assert_eq!(position(&s, 'c', 0), 5);
    assert_eq!(position(&s, 'c', 6), 9);
    assert_eq!(position(&s, 'x', 0), 9);
    assert_eq!(position(&s, 'a', 100), 9);
    assert_eq!(after_spaces(&s, 0), 2);
    assert_eq!(after_spaces(&s, 4), 5);
    assert_eq!(after_spaces(&s, 7), 9);
    assert_eq!(next_space(&s, 2), 4);
    assert_eq!(next_space(&s, 5), 7);
    assert_eq!(before_spaces(&s, 9), 7);
    assert_eq!(before_spaces(&s, 2), 0);
    assert_eq!(before_spaces(&s, 100), 0);
}

#[test]
fn trimming_matches_std() {
    for t in ["", " ", "a", "  a b \t", "\r\n x", "x\u{3000}", " 中 文 "] {
        let got: String = trimmed(&cs(t)).into_iter().collect();
        assert_eq!(got, t.trim());
    }
}

#[test]
fn splitting_matches_std() {
    for t in ["", ";", "a;b", "a;;b;", ";a", "abc", ";;"] {
        let want: Vec<String> = t.split(';').map(String::from).collect();
        assert_eq!(strs(split_on(&cs(t), ';')), want);
    }
}

#[test]
fn lines_match_std() {
    for t in ["", "\n", "a", "a\n", "a\nb", "a\r\nb\r\n", "a\r", "\n\n", "a\n\nb", "a\r\n\r", "\r\n"] {
        let want: Vec<String> = t.lines().map(String::from).collect();
        assert_eq!(strs(lines_of(&cs(t))), want);
    }
}

#[test]
fn split_once_matches_std() {
    for t in ["", "=", "a=b", "a==b", "ab", "=x"] {
        let want = t.split_once('=').map(|(a, b)| (a.to_string(), b.to_string()));
        let got = split_first(&cs(t), '=')
            .map(|(a, b)| (a.into_iter().collect::<String>(), b.into_iter().collect::<String>()));
        assert_eq!(got, want);
    }
}

#[test]
fn prefixes_and_occurrences() {
    assert!(begins_with(&cs("time=1"), &cs("time=")));
    assert!(begins_with(&cs("time="), &cs("")));
    assert!(!begins_with(&cs("tim"), &cs("time=")));
    assert!(!begins_with(&cs("timf=1"), &cs("time=")));
    assert!(matches_at(&cs("xxsuccess"), &cs("success"), 2));
    assert!(!matches_at(&cs("xxsuccess"), &cs("success"), 3));
    assert!(!matches_at(&cs("xx"), &cs("success"), usize::MAX));
    for (hay, needle) in [
        ("{\"success\":true}", "success"),
        ("succes", "success"),
        ("", ""),
        ("abc", ""),
        ("", "a"),
        ("aab", "ab"),
        ("失败success", "success"),
    ] {
        assert_eq!(holds_text(&cs(hay), &cs(needle)), hay.contains(needle));
    }
}

#[test]
fn first_word_matches_std() {
    for t in ["", "   ", "a", "  2025-01-02 10:00:00", "x\ty", "\n中文 b"] {
        let want = t.split_whitespace().next().map(String::from);
        let got = leading_word(&cs(t)).map(|w| w.into_iter().collect::<String>());
        assert_eq!(got, want);
    }
}

#[test]
fn unsigned_numbers_match_std() {
    for t in ["", "0", "7", "007", "+5", "+", "-1", "255", "256", "1a", " 1", "1 ", "++1", "18446744073709551615", "18446744073709551616", "99999999999999999999999"] {
        assert_eq!(read_unsigned(&cs(t), u64::MAX), t.parse::<u64>().ok());
        assert_eq!(read_unsigned(&cs(t), 255), t.parse::<u8>().ok().map(|v| v as u64));
    }
}

#[test]
fn signed_numbers_match_std() {
    for t in ["", "0", "-0", "+0", "-", "+", "12", "-12", "+12", "--1", "-+1", "9223372036854775807", "9223372036854775808", "-9223372036854775808", "-9223372036854775809", "1e3", "１２"] {
        assert_eq!(read_i64(&cs(t)), t.parse::<i64>().ok());
    }
}
