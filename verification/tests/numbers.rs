use buildinfo::digits::parse_u32;

#[test]
fn parses_plain_digits() {
    assert_eq!(parse_u32("42"), Some(42));
    assert_eq!(parse_u32("0"), Some(0));
    assert_eq!(parse_u32("007"), Some(7));
}

#[test]
fn parses_leading_plus() {
    assert_eq!(parse_u32("+42"), Some(42));
}

#[test]
fn rejects_empty_and_sign_only() {
    assert_eq!(parse_u32(""), None);
    assert_eq!(parse_u32("+"), None);
}

#[test]
fn rejects_non_digits() {
    assert_eq!(parse_u32("seven"), None);
    assert_eq!(parse_u32("4 2"), None);
    assert_eq!(parse_u32("-1"), None);
    assert_eq!(parse_u32("1.5"), None);
}

#[test]
fn bounds_at_u32_max() {
    assert_eq!(parse_u32("4294967295"), Some(u32::MAX));
    assert_eq!(parse_u32("4294967296"), None);
    assert_eq!(parse_u32("99999999999999999999"), None);
}
