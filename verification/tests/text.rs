use cloud_calc::text::{chars_of, decimal, parse_i32, trim};

#[test]
fn trim_removes_line_end_and_spaces() {
    assert_eq!(trim("  hello world \r\n"), "hello world");
    assert_eq!(trim("1\n"), "1");
    assert_eq!(trim("\t\u{3000}x\u{a0}"), "x");
    assert_eq!(trim(" \n"), "");
    assert_eq!(trim(""), "");
    assert_eq!(trim("a b"), "a b");
}

#[test]
fn trim_agrees_with_str_trim() {
    let samples = [
        " exit\n",
        "\u{2003}admin\u{2029}",
        "\u{200b}zero width\u{200b}",
        "\u{85}next\u{1680}",
        "ünïcödé \n",
    ];
    for s in samples {
        assert_eq!(trim(s), s.trim());
    }
}

#[test]
fn chars_of_keeps_order() {
    assert_eq!(chars_of("héllo"), vec!['h', 'é', 'l', 'l', 'o']);
    assert_eq!(chars_of(""), Vec::<char>::new());
}

#[test]
fn parse_i32_reads_numbers() {
    assert_eq!(parse_i32("42"), Some(42));
    assert_eq!(parse_i32("-7"), Some(-7));
    assert_eq!(parse_i32("+5"), Some(5));
    assert_eq!(parse_i32("007"), Some(7));
    assert_eq!(parse_i32("2147483647"), Some(i32::MAX));
    assert_eq!(parse_i32("-2147483648"), Some(i32::MIN));
}

#[test]
fn parse_i32_refuses_what_str_parse_refuses() {
    for s in ["", "-", "+", "abc", "12a", " 5", "5 ", "2147483648", "-2147483649", "1_000", "99999999999999999999", "--1", "٣"] {
        assert_eq!(parse_i32(s), None, "{s:?}");
        assert!(s.parse::<i32>().is_err());
    }
}

#[test]
fn parse_i32_agrees_with_str_parse() {
    for s in ["0", "-0", "+0", "123456", "-99", "2147483647", "-2147483648", "x", "", "+-1"] {
        assert_eq!(parse_i32(s), s.parse::<i32>().ok(), "{s:?}");
    }
}

#[test]
fn decimal_writes_like_display() {
    for n in [0i64, 7, 10, -1, -12, 1234567890, i64::MAX, i64::MIN] {
        assert_eq!(decimal(n), n.to_string());
    }
    assert_eq!(decimal(-305), "-305");
}

#[test]
fn decimal_reads_back() {
    for n in [0i32, 1, -1, 42, i32::MAX, i32::MIN, -2024] {
        assert_eq!(parse_i32(&decimal(n as i64)), Some(n));
    }
}
