use list_editor::text::{chars_of, join, parse_index, push_decimal, single_char, trimmed};

fn decimal(n: usize) -> String {
    let mut out = String::new();
    push_decimal(&mut out, n);
    out
}

#[test]
fn decimal_of_small_and_large_numbers() {
    assert_eq!(decimal(0), "0");
    assert_eq!(decimal(7), "7");
    assert_eq!(decimal(10), "10");
    assert_eq!(decimal(105), "105");
    assert_eq!(decimal(9990), "9990");
    assert_eq!(decimal(usize::MAX), usize::MAX.to_string());
}

#[test]
fn decimal_is_appended_to_what_is_there() {
    let mut out = String::from("n = ");
    push_decimal(&mut out, 42);
    assert_eq!(out, "n = 42");
}

#[test]
fn chars_of_keeps_every_character() {
    assert_eq!(chars_of(""), Vec::<char>::new());
    assert_eq!(chars_of("añ→z"), vec!['a', 'ñ', '→', 'z']);
}

#[test]
fn join_puts_the_separator_between_neighbours() {
    let none: Vec<String> = vec![];
    assert_eq!(join(&none, ", "), "");
    assert_eq!(join(&vec!["a".to_string()], ", "), "a");
    assert_eq!(join(&vec!["a".to_string(), "b".to_string(), "c".to_string()], ", "), "a, b, c");
    assert_eq!(join(&vec!["".to_string(), "".to_string()], "-"), "-");
    assert_eq!(join(&vec!["x".to_string(), "y".to_string()], ""), "xy");
}

#[test]
fn trimmed_cuts_white_space_at_both_ends_only() {
    assert_eq!(trimmed(""), "");
    assert_eq!(trimmed("   \t\r\n"), "");
    assert_eq!(trimmed("abc"), "abc");
    assert_eq!(trimmed("  a b  c \n"), "a b  c");
    assert_eq!(trimmed("\u{a0}\u{2003}x\u{3000}"), "x");
    assert_eq!(trimmed("\u{200b}x"), "\u{200b}x");
    for line in ["", " ", " x", "x ", " x y ", "\n\tx\u{85}", "é \u{1680}"] {
        assert_eq!(trimmed(line), line.trim());
    }
}

#[test]
fn single_char_wants_exactly_one() {
    assert_eq!(single_char(""), None);
    assert_eq!(single_char("c"), Some('c'));
    assert_eq!(single_char("é"), Some('é'));
    assert_eq!(single_char("cc"), None);
    assert_eq!(single_char(" c"), None);
}

#[test]
fn parse_index_reads_what_the_standard_parser_reads() {
    assert_eq!(parse_index("0"), Some(0));
    assert_eq!(parse_index("42"), Some(42));
    assert_eq!(parse_index("+42"), Some(42));
    assert_eq!(parse_index("007"), Some(7));
    assert_eq!(parse_index(""), None);
    assert_eq!(parse_index("+"), None);
    assert_eq!(parse_index("-"), None);
    assert_eq!(parse_index("-0"), None);
    assert_eq!(parse_index("++1"), None);
    assert_eq!(parse_index("1+"), None);
    assert_eq!(parse_index("4 2"), None);
    assert_eq!(parse_index("4_2"), None);
    assert_eq!(parse_index("٣"), None);
    let max = usize::MAX.to_string();
    assert_eq!(parse_index(&max), Some(usize::MAX));
    assert_eq!(parse_index(&format!("{}0", max)), None);
    assert_eq!(parse_index(&format!("000{}", max)), Some(usize::MAX));
    let mut beyond = max.clone().into_bytes();
    let last = beyond.len() - 1;
    beyond[last] += 1;
    assert_eq!(parse_index(&String::from_utf8(beyond).unwrap()), None);
    for input in ["", "0", "+0", "-1", "12a", "99999999999999999999", "18446744073709551616", " 1"] {
        assert_eq!(parse_index(input), input.parse::<usize>().ok());
    }
}

fn white_space(c: char) -> bool {
    matches!(
        c,
        '\u{9}'..='\u{d}'
            | ' '
            | '\u{85}'
            | '\u{a0}'
            | '\u{1680}'
            | '\u{2000}'..='\u{200a}'
            | '\u{2028}'
            | '\u{2029}'
            | '\u{202f}'
            | '\u{205f}'
            | '\u{3000}'
    )
}

#[test]
fn trimmed_cuts_exactly_the_white_space_characters() {
    let mut count = 0;
    for code in 0..=0x10ffffu32 {
        if let Some(c) = char::from_u32(code) {
            let cut = trimmed(&c.to_string()).is_empty();
            assert_eq!(cut, white_space(c), "U+{:04X}", code);
            assert_eq!(cut, c.is_whitespace(), "U+{:04X}", code);
            if cut {
                count += 1;
            }
        }
    }
    assert_eq!(count, 25);
}
