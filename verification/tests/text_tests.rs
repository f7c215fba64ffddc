use emqxctl::text::{
    concat3, join_strings, pad_right, parse_usize, split_char, split_once_char, str_eq, str_lt,
    trim_end_char, u64_to_decimal, urlencoding_simple,
};

#[test]
fn topic_escaping_replaces_separators_and_wildcards() {
    assert_eq!(urlencoding_simple("a/b/#"), "a%2Fb%2F%23");
    assert_eq!(urlencoding_simple("sensors/+/temp"), "sensors%2F%2B%2Ftemp");
}

#[test]
fn topic_escaping_keeps_plain_text() {
    assert_eq!(urlencoding_simple("plain-topic_1"), "plain-topic_1");
    assert_eq!(urlencoding_simple(""), "");
    assert_eq!(urlencoding_simple("héllo"), "héllo");
}

#[test]
fn split_once_at_first_separator() {
    assert_eq!(
        split_once_char("clientid/my/client", '/'),
        Some(("clientid".to_string(), "my/client".to_string()))
    );
    assert_eq!(split_once_char("noslash", '/'), None);
    assert_eq!(split_once_char("/x", '/'), Some((String::new(), "x".to_string())));
}

#[test]
fn split_char_yields_every_piece() {
    assert_eq!(split_char("a.b.c", '.'), vec!["a", "b", "c"]);
    assert_eq!(split_char("", '.'), vec![""]);
    assert_eq!(split_char("a..", '.'), vec!["a", "", ""]);
}

#[test]
fn join_puts_separator_between_parts() {
    let parts = vec!["x".to_string(), "y".to_string(), "z".to_string()];
    assert_eq!(join_strings(&parts, ", "), "x, y, z");
    assert_eq!(join_strings(&Vec::new(), ", "), "");
}

#[test]
fn decimal_text_of_numbers() {
    assert_eq!(u64_to_decimal(0), "0");
    assert_eq!(u64_to_decimal(42), "42");
    assert_eq!(u64_to_decimal(u64::MAX), "18446744073709551615");
}

#[test]
fn parse_usize_accepts_digits_only() {
    assert_eq!(parse_usize("12"), Some(12));
    assert_eq!(parse_usize("+7"), Some(7));
    assert_eq!(parse_usize(""), None);
    assert_eq!(parse_usize("-1"), None);
    assert_eq!(parse_usize("1a"), None);
    assert_eq!(parse_usize("99999999999999999999999"), None);
}

#[test]
fn trailing_characters_are_trimmed() {
    assert_eq!(trim_end_char("http://host:18083///", '/'), "http://host:18083");
    assert_eq!(trim_end_char("plain", '/'), "plain");
}

#[test]
fn padding_and_comparison() {
    assert_eq!(pad_right("ab", 4), "ab  ");
    assert_eq!(pad_right("abcdef", 4), "abcdef");
    assert!(str_eq("same", "same"));
    assert!(!str_eq("same", "other"));
    assert!(str_lt("alpha", "beta"));
    assert!(str_lt("ab", "abc"));
    assert!(!str_lt("b", "a"));
    assert_eq!(concat3("a", "b", "c"), "abc");
}
