use library_frontend::text::{byte_length, decimal_string, parse_i32, push_decimal, trim};

#[test]
fn trim_removes_ascii_and_unicode_space() {
    assert_eq!(trim("  hello \t\n"), "hello");
    assert_eq!(trim("\u{3000}中文 书名\u{00a0}"), "中文 书名");
    assert_eq!(trim("   "), "");
    assert_eq!(trim(""), "");
    assert_eq!(trim("a b"), "a b");
}

#[test]
fn trim_twice_is_trim_once() {
    for s in ["  x  ", "\u{2003}y", "z\u{205f}", "   "] {
        let once = trim(s);
        assert_eq!(trim(&once), once);
    }
}

#[test]
fn decimal_writes_integers() {
    assert_eq!(decimal_string(0), "0");
    assert_eq!(decimal_string(42), "42");
    assert_eq!(decimal_string(-7), "-7");
    assert_eq!(decimal_string(i32::MIN as i64), "-2147483648");
    assert_eq!(decimal_string(i64::MIN), "-9223372036854775808");
    let mut s = String::from("page=");
    push_decimal(&mut s, 1090);
    assert_eq!(s, "page=1090");
}

#[test]
fn parse_i32_follows_std() {
    for s in ["0", "+7", "-0", "2147483647", "-2147483648", "007", "", "-", "+", "2147483648",
        "-2147483649", " 1", "1 ", "12a", "--3", "+-3", "１", "99999999999999999999"] {
        assert_eq!(parse_i32(s), s.parse::<i32>().ok(), "input {:?}", s);
    }
}

#[test]
fn decimal_parses_back() {
    for n in [0, 1, -1, 9, 10, -10, 12345, i32::MAX, i32::MIN] {
        assert_eq!(parse_i32(&decimal_string(n as i64)), Some(n));
    }
}

#[test]
fn byte_length_counts_utf8_bytes() {
    assert_eq!(byte_length("ab"), 2);
    assert_eq!(byte_length("中a"), 4);
    assert_eq!(byte_length("😀"), 4);
}
