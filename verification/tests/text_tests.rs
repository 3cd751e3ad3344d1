use lon::text::{
    decimal_string, join_strings, parse_u64_exec, signed_decimal_string, split_char, split_lines,
    trim_end_string,
};

fn strings(v: &[&str]) -> Vec<String> {
    v.iter().map(|s| s.to_string()).collect()
}

#[test]
fn split_char_keeps_empty_pieces() {
    assert_eq!(split_char("a,b,,c", ','), strings(&["a", "b", "", "c"]));
    assert_eq!(split_char("", ','), strings(&[""]));
    assert_eq!(split_char(",", ','), strings(&["", ""]));
    assert_eq!(split_char("äö,ü", ','), strings(&["äö", "ü"]));
}

#[test]
fn join_strings_puts_separator_between() {
    assert_eq!(join_strings(&strings(&["a", "b", "c"]), ","), "a,b,c");
    assert_eq!(join_strings(&strings(&["a"]), ","), "a");
    assert_eq!(join_strings(&Vec::new(), ","), "");
    assert_eq!(join_strings(&strings(&["", ""]), " "), " ");
}

#[test]
fn split_join_round_trip_on_labels() {
    for labels in ["", "dependencies", "a,b", ",x,", "bot,,auto"] {
        assert_eq!(join_strings(&split_char(labels, ','), ","), labels);
    }
}

#[test]
fn split_lines_as_std_lines() {
    for text in ["", "a", "a\n", "a\nb", "a\r\nb\r\n", "a\r", "\n\n", "x\ry\n", "\r\n"] {
        let expected: Vec<String> = text.lines().map(|l| l.to_string()).collect();
        assert_eq!(split_lines(text), expected, "text {:?}", text);
    }
}

#[test]
fn trim_end_as_std() {
    for text in ["", "abc", "abc \n", " a b\t\r\n", "x\u{a0}\u{3000}", "\n\n"] {
        assert_eq!(trim_end_string(text), text.trim_end(), "text {:?}", text);
    }
}

#[test]
fn decimal_strings() {
    assert_eq!(decimal_string(0), "0");
    assert_eq!(decimal_string(7), "7");
    assert_eq!(decimal_string(1700000000), "1700000000");
    assert_eq!(decimal_string(u64::MAX), u64::MAX.to_string());
    assert_eq!(signed_decimal_string(-1), "-1");
    assert_eq!(signed_decimal_string(128), "128");
    assert_eq!(signed_decimal_string(i64::MIN), i64::MIN.to_string());
}

#[test]
fn parse_u64_as_std() {
    for text in [
        "0",
        "42",
        "+42",
        "-1",
        "",
        "+",
        "4 2",
        "18446744073709551615",
        "18446744073709551616",
        "99999999999999999999x",
        "007",
        "1700000000",
    ] {
        assert_eq!(parse_u64_exec(text), text.parse::<u64>().ok(), "text {:?}", text);
    }
}

#[test]
fn decimal_read_back_after_trim() {
    for n in [0u64, 9, 10, 1700000000, u64::MAX] {
        let printed = format!("{}\n", decimal_string(n));
        assert_eq!(parse_u64_exec(&trim_end_string(&printed)), Some(n));
    }
}
