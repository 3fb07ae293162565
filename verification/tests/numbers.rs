use bls2brs::number::parse_u32;

#[test]
fn digits_are_read() {
    assert_eq!(parse_u32("0"), Some(0));
    assert_eq!(parse_u32("7"), Some(7));
    assert_eq!(parse_u32("46"), Some(46));
    assert_eq!(parse_u32("0012"), Some(12));
    assert_eq!(parse_u32("4294967295"), Some(u32::MAX));
}

#[test]
fn a_plus_may_lead() {
    assert_eq!(parse_u32("+5"), Some(5));
    assert_eq!(parse_u32("+"), None);
    assert_eq!(parse_u32("++5"), None);
    assert_eq!(parse_u32("5+"), None);
}

#[test]
fn anything_else_has_no_value() {
    assert_eq!(parse_u32(""), None);
    assert_eq!(parse_u32("-5"), None);
    assert_eq!(parse_u32(" 5"), None);
    assert_eq!(parse_u32("5 "), None);
    assert_eq!(parse_u32("4a"), None);
    assert_eq!(parse_u32("\u{0663}"), None);
    assert_eq!(parse_u32("1\u{00b0}"), None);
}

#[test]
fn too_large_has_no_value() {
    assert_eq!(parse_u32("4294967296"), None);
    assert_eq!(parse_u32("42949672950"), None);
    assert_eq!(parse_u32("99999999999999999999999999"), None);
}

#[test]
fn reads_as_std_does() {
    for text in ["0", "12", "+12", "", "+", "-1", "4294967295", "4294967296", "1x", "00000000000001"] {
        assert_eq!(parse_u32(text), text.parse::<u32>().ok());
    }
}
