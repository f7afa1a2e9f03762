use rslprompt::number::{i64_to_string, parse_i32_str, parse_u64, parse_u8, u64_to_string};
use rslprompt::text::{
    byte_prefix, count_lines, split_lines, split_once_chars, strip_prefix_chars, to_chars, trim_str,
};

fn s(v: &[char]) -> String {
    v.iter().collect()
}

#[test]
fn trim_removes_ascii_and_unicode_whitespace() {
    assert_eq!(s(&trim_str("  a b \n")), "a b");
    assert_eq!(s(&trim_str("\u{3000}x\u{a0}\u{2028}")), "x");
    assert_eq!(s(&trim_str(" \t\r\n")), "");
    assert_eq!(s(&trim_str("")), "");
}

#[test]
fn trim_twice_is_trim_once() {
    let once = s(&trim_str(" \u{85} inner  text \u{205f}"));
    let twice = s(&trim_str(&once));
    assert_eq!(once, twice);
    assert_eq!(once, "inner  text");
}

#[test]
fn lines_split_like_str_lines() {
    let c = to_chars("a\r\nb\n");
    let ls: Vec<String> = split_lines(&c).iter().map(|l| s(l)).collect();
    assert_eq!(ls, vec!["a", "b"]);
    let c = to_chars("a\r");
    let ls: Vec<String> = split_lines(&c).iter().map(|l| s(l)).collect();
    assert_eq!(ls, vec!["a\r"]);
    assert_eq!(split_lines(&to_chars("")).len(), 0);
    let ls: Vec<String> = split_lines(&to_chars("\n")).iter().map(|l| s(l)).collect();
    assert_eq!(ls, vec![""]);
    let ls: Vec<String> = split_lines(&to_chars("x\n\ny")).iter().map(|l| s(l)).collect();
    assert_eq!(ls, vec!["x", "", "y"]);
}

#[test]
fn count_lines_matches_std() {
    for text in ["", "a", "a\n", "a\nb", "a\nb\n", "\n\n", "a\r\nb\r\n", "x\r"] {
        assert_eq!(count_lines(text), text.lines().count(), "{:?}", text);
    }
}

#[test]
fn split_once_at_first_space() {
    let c = to_chars("abc refs/heads/main x");
    let (a, b) = split_once_chars(&c, ' ').unwrap();
    assert_eq!(s(&a), "abc");
    assert_eq!(s(&b), "refs/heads/main x");
    assert!(split_once_chars(&to_chars("nospace"), ' ').is_none());
}

#[test]
fn strip_prefix_of_chars() {
    let c = to_chars("ref: refs/heads/main");
    let p = to_chars("ref: refs/heads/");
    assert_eq!(s(&strip_prefix_chars(&c, &p).unwrap()), "main");
    assert!(strip_prefix_chars(&p, &c).is_none());
}

#[test]
fn byte_prefix_follows_str_get() {
    for text in ["abcdefgh", "abcdefg", "abc", "ééééx", "éééx", "⇵⇵x", "ab⇵cd"] {
        let c = to_chars(text);
        let got = byte_prefix(&c, 7).map(|v| s(&v));
        let want = text.get(..7).map(|x| x.to_string());
        assert_eq!(got, want, "{:?}", text);
    }
}

#[test]
fn decimal_formatting() {
    assert_eq!(u64_to_string(0), "0");
    assert_eq!(u64_to_string(1234), "1234");
    assert_eq!(u64_to_string(u64::MAX), u64::MAX.to_string());
    assert_eq!(i64_to_string(-5), "-5");
    assert_eq!(i64_to_string(i64::MIN), i64::MIN.to_string());
    assert_eq!(i64_to_string(42), "42");
}

#[test]
fn parsing_follows_str_parse() {
    for text in ["255", "256", "+7", "-0", "", " 1", "1 ", "007", "+", "-", "12a", "0"] {
        assert_eq!(parse_u8(text), text.parse::<u8>().ok(), "{:?}", text);
        assert_eq!(parse_u64(text), text.parse::<u64>().ok(), "{:?}", text);
        assert_eq!(parse_i32_str(text), text.parse::<i32>().ok(), "{:?}", text);
    }
    for text in ["-2147483648", "2147483647", "2147483648", "-2147483649", "-17", "+-1"] {
        assert_eq!(parse_i32_str(text), text.parse::<i32>().ok(), "{:?}", text);
    }
    for text in ["18446744073709551615", "18446744073709551616", "99999999999999999999"] {
        assert_eq!(parse_u64(text), text.parse::<u64>().ok(), "{:?}", text);
    }
}

#[test]
fn parsing_a_formatted_number_gives_it_back() {
    for n in [0u8, 1, 9, 10, 99, 100, 255] {
        assert_eq!(parse_u8(&u64_to_string(n as u64)), Some(n));
    }
    for n in [i32::MIN, -1, 0, 1, i32::MAX] {
        assert_eq!(parse_i32_str(&i64_to_string(n as i64)), Some(n));
    }
}
