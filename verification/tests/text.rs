use hyprlib::text::{chars_of, parse_u32, spells, split_exact, split_line, truthy};

#[test]
fn chars_of_keeps_every_character() {
    assert_eq!(chars_of(""), Vec::<char>::new());
    assert_eq!(chars_of("a,b"), vec!['a', ',', 'b']);
    assert_eq!(chars_of("\u{e9}\u{1f600}"), vec!['\u{e9}', '\u{1f600}']);
}

#[test]
fn spells_compares_whole_texts() {
    assert!(spells(&Vec::new(), ""));
    assert!(!spells(&Vec::new(), "p"));
    assert!(spells(&vec!['p', 'i', 'n'], "pin"));
    assert!(!spells(&vec!['p', 'i', 'n'], "pi"));
    assert!(!spells(&vec!['p', 'i', 'n'], "pit"));
}

#[test]
fn split_line_cuts_at_the_first_delimiter() {
    assert_eq!(split_line("tag>>payload"), Some(("tag", "payload")));
    assert_eq!(split_line("tag>>"), Some(("tag", "")));
    assert_eq!(split_line(">>payload"), Some(("", "payload")));
    assert_eq!(split_line(">>"), Some(("", "")));
    assert_eq!(split_line("a>>b>>c"), Some(("a", "b>>c")));
    assert_eq!(split_line("a>>>b"), Some(("a", ">b")));
    assert_eq!(split_line("a>b>>c"), Some(("a>b", "c")));
    assert_eq!(split_line("\u{e9}>>\u{1f600}"), Some(("\u{e9}", "\u{1f600}")));
    assert_eq!(split_line(""), None);
    assert_eq!(split_line(">"), None);
    assert_eq!(split_line("a>b>c"), None);
    assert_eq!(split_line("garbage"), None);
}

#[test]
fn split_exact_wants_the_exact_count() {
    assert_eq!(split_exact("a,b", 2), Some(vec!["a", "b"]));
    assert_eq!(split_exact("a,b", 1), None);
    assert_eq!(split_exact("a,b", 3), None);
    assert_eq!(split_exact("a,b", 0), None);
    assert_eq!(split_exact("", 1), Some(vec![""]));
    assert_eq!(split_exact("", 0), None);
    assert_eq!(split_exact(",", 2), Some(vec!["", ""]));
    assert_eq!(split_exact(",a,", 3), Some(vec!["", "a", ""]));
    assert_eq!(split_exact("a,,b", 3), Some(vec!["a", "", "b"]));
    assert_eq!(split_exact("0x1,2,cls,a title", 4), Some(vec!["0x1", "2", "cls", "a title"]));
    assert_eq!(split_exact("\u{e9},\u{1f600}x", 2), Some(vec!["\u{e9}", "\u{1f600}x"]));
}

#[test]
fn parse_u32_reads_decimal_numbers() {
    assert_eq!(parse_u32("0"), Some(0));
    assert_eq!(parse_u32("10"), Some(10));
    assert_eq!(parse_u32("123456"), Some(123456));
    assert_eq!(parse_u32("+5"), Some(5));
    assert_eq!(parse_u32("000"), Some(0));
    assert_eq!(parse_u32("4294967295"), Some(u32::MAX));
    assert_eq!(parse_u32("4294967296"), None);
    assert_eq!(parse_u32("42949672950"), None);
    assert_eq!(parse_u32(""), None);
    assert_eq!(parse_u32("+"), None);
    assert_eq!(parse_u32("-0"), None);
    assert_eq!(parse_u32("1 "), None);
    assert_eq!(parse_u32("0x10"), None);
    assert_eq!(parse_u32("1+1"), None);
}

#[test]
fn parse_u32_agrees_with_the_standard_parser() {
    let samples = [
        "", "+", "-", "0", "+0", "-0", "1", "01", "+01", "12a", "a12", " 12", "12 ", "4294967295",
        "4294967296", "+4294967295", "18446744073709551616", "1_000", "1.0", "1e3", "++1", "+-1",
        "\u{661}", "9", "99", "999999999", "9999999999",
    ];
    for s in samples {
        assert_eq!(parse_u32(s), s.parse::<u32>().ok(), "on {:?}", s);
    }
}

#[test]
fn truthy_is_true_for_one_only() {
    assert!(truthy("1"));
    assert!(!truthy("0"));
    assert!(!truthy(""));
    assert!(!truthy("11"));
    assert!(!truthy("true"));
    assert!(!truthy("01"));
    assert!(!truthy("\u{661}"));
}
