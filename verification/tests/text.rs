use dannesk::numbers::parse_i64;
use dannesk::text::contains_text;

fn chars(s: &str) -> Vec<char> {
    s.chars().collect()
}

#[test]
fn substrings_are_found() {
    assert!(contains_text("network error", "error"));
    assert!(contains_text("error", "error"));
    assert!(contains_text("abc", ""));
    assert!(contains_text("", ""));
    assert!(!contains_text("err", "error"));
    assert!(!contains_text("erorr", "error"));
    assert!(contains_text("aaab", "aab"));
}

#[test]
fn signed_integers_parse_as_std_does() {
    assert_eq!(parse_i64(&chars("42")), Some(42));
    assert_eq!(parse_i64(&chars("+42")), Some(42));
    assert_eq!(parse_i64(&chars("-42")), Some(-42));
    assert_eq!(parse_i64(&chars("-9223372036854775808")), Some(i64::MIN));
    assert_eq!(parse_i64(&chars("9223372036854775807")), Some(i64::MAX));
    assert_eq!(parse_i64(&chars("9223372036854775808")), None);
    assert_eq!(parse_i64(&chars("-9223372036854775809")), None);
    assert_eq!(parse_i64(&chars("-")), None);
    assert_eq!(parse_i64(&chars("+")), None);
    assert_eq!(parse_i64(&chars("-+1")), None);
    assert_eq!(parse_i64(&chars("")), None);
    assert_eq!(parse_i64(&chars("1 ")), None);
    for s in ["0", "-0", "+7", "-+7", "12x", "-00012"] {
        assert_eq!(parse_i64(&chars(s)), s.parse::<i64>().ok());
    }
}
