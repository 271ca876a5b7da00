use ghdesk::text::{
    cursor_for_multiline, find_last_line, join, push_decimal, repeat, split_lines, starts_with,
};

fn decimal(n: u64) -> String {
    let mut s = String::new();
    push_decimal(&mut s, n);
    s
}

#[test]
fn decimal_of_numbers() {
    assert_eq!(decimal(0), "0");
    assert_eq!(decimal(9), "9");
    assert_eq!(decimal(10), "10");
    assert_eq!(decimal(12345), "12345");
    assert_eq!(decimal(u64::MAX), "18446744073709551615");
}

#[test]
fn decimal_reads_back() {
    for n in [0, 7, 10, 99, 100, 65_536, 1_000_000_007] {
        assert_eq!(decimal(n).parse::<u64>().unwrap(), n);
    }
}

#[test]
fn decimal_is_appended() {
    let mut s = "#".to_string();
    push_decimal(&mut s, 42);
    assert_eq!(s, "#42");
}

#[test]
fn join_puts_separators_between() {
    assert_eq!(join(&vec![], ", "), "");
    assert_eq!(join(&vec!["a".to_string()], ", "), "a");
    assert_eq!(
        join(&vec!["a".to_string(), "b".to_string(), "c".to_string()], ", "),
        "a, b, c"
    );
}

#[test]
fn repeat_writes_copies() {
    assert_eq!(repeat("ab", 0), "");
    assert_eq!(repeat("ab", 3), "ababab");
}

#[test]
fn split_at_newlines() {
    assert_eq!(split_lines(""), vec![""]);
    assert_eq!(split_lines("a"), vec!["a"]);
    assert_eq!(split_lines("a\n"), vec!["a", ""]);
    assert_eq!(split_lines("\na\n\nb"), vec!["", "a", "", "b"]);
}

#[test]
fn split_joins_back() {
    for text in ["", "a", "a\nb", "\n\n", "日本\n語\n"] {
        assert_eq!(join(&split_lines(text), "\n"), text);
    }
}

#[test]
fn pieces_hold_no_newline() {
    assert!(split_lines("a\nb\n\nc").iter().all(|piece| !piece.contains('\n')));
}

#[test]
fn cursor_counts_rows_and_columns() {
    assert_eq!(cursor_for_multiline(""), (0, 0));
    assert_eq!(cursor_for_multiline("abc"), (0, 3));
    assert_eq!(cursor_for_multiline("abc\n"), (1, 0));
    assert_eq!(cursor_for_multiline("a\nbc\ndef"), (2, 3));
    assert_eq!(cursor_for_multiline("日本\n語"), (1, 1));
}

#[test]
fn cursor_advances_with_each_character() {
    let (row, column) = cursor_for_multiline("ab\nc");
    assert_eq!(cursor_for_multiline("ab\ncd"), (row, column + 1));
    assert_eq!(cursor_for_multiline("ab\nc\n"), (row + 1, 0));
}

#[test]
fn prefixes() {
    assert!(starts_with("https://x", "https://"));
    assert!(starts_with("abc", ""));
    assert!(!starts_with("http", "https://"));
    assert!(!starts_with("xhttps://", "https://"));
}

#[test]
fn last_line_with_a_prefix() {
    assert_eq!(find_last_line("", "x"), None);
    assert_eq!(find_last_line("xa\nxb\nc", "x"), Some("xb".to_string()));
    assert_eq!(find_last_line("xa\r\nc\r\n", "x"), Some("xa".to_string()));
    assert_eq!(find_last_line("c\nxz\r", "x"), Some("xz\r".to_string()));
    assert_eq!(find_last_line("a\nb\n", "x"), None);
    assert_eq!(find_last_line("a\n\n", ""), Some("".to_string()));
}

#[test]
fn cursor_of_two_texts() {
    for first in ["", "ab", "ab\nc", "\n"] {
        let (row, column) = cursor_for_multiline(first);
        for second in ["", "xyz"] {
            let both = format!("{first}{second}");
            assert_eq!(cursor_for_multiline(&both), (row, column + second.len()));
        }
        for second in ["\n", "x\nyz", "\n\n語"] {
            let both = format!("{first}{second}");
            let (more, end) = cursor_for_multiline(second);
            assert_eq!(cursor_for_multiline(&both), (row + more, end));
        }
    }
}
