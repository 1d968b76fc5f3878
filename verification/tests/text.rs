use dfc_node::text::{
    decimal_string, lines, nth_word, parse_u16, parse_u64, same_text, starts_with,
    trim_end_matches,
};

#[test]
fn numbers_are_read_as_they_were_written() {
    for n in [0, 9, 10, 42, 1_000_000, u64::MAX] {
        assert_eq!(decimal_string(n), n.to_string());
        assert_eq!(parse_u64(&decimal_string(n)), Some(n));
    }
}

#[test]
fn numbers_are_read_as_std_reads_them() {
    for s in [
        "", "+", "-", "0", "007", "+5", "++5", "-5", " 5", "5 ", "5.0", "65535", "65536",
        "18446744073709551615", "18446744073709551616", "99999999999999999999999", "\u{663}",
    ] {
        assert_eq!(parse_u64(s), s.parse::<u64>().ok(), "{:?}", s);
        assert_eq!(parse_u16(s), s.parse::<u16>().ok(), "{:?}", s);
    }
}

#[test]
fn words_and_lines_are_those_of_std() {
    for s in [
        "",
        " ",
        "a b",
        "  a\tb\u{a0}c\u{3000}d\r\n e ",
        "one\ntwo\r\nthree\r",
        "\n\n",
        "\r\n\r",
        "x\u{200b}y z\u{85}w",
    ] {
        for n in 0..6 {
            assert_eq!(nth_word(s, n), s.split_whitespace().nth(n), "{:?} {}", s, n);
        }
        assert_eq!(lines(s), s.lines().collect::<Vec<_>>(), "{:?}", s);
    }
}

#[test]
fn prefixes_and_suffixes_are_those_of_std() {
    for s in ["", "/", "a/", "a//b//", "http://x", "http:/"] {
        assert_eq!(trim_end_matches(s, '/'), s.trim_end_matches('/'));
        for p in ["", "a", "http://", "/"] {
            assert_eq!(starts_with(s, p), s.starts_with(p));
            assert_eq!(same_text(s, p), s == p);
        }
    }
}
