use sdx::numfmt::{i32_to_dec, i64_to_dec, parse_size_text, parse_u32, u32_to_dec, u64_to_dec};

#[test]
fn u32_renders_decimal() {
    assert_eq!(u32_to_dec(0), "0");
    assert_eq!(u32_to_dec(7), "7");
    assert_eq!(u32_to_dec(512), "512");
    assert_eq!(u32_to_dec(u32::MAX), "4294967295");
}

#[test]
fn u64_renders_decimal() {
    assert_eq!(u64_to_dec(1234567890), "1234567890");
    assert_eq!(u64_to_dec(u64::MAX), "18446744073709551615");
}

#[test]
fn i64_renders_sign() {
    assert_eq!(i64_to_dec(-1), "-1");
    assert_eq!(i64_to_dec(0), "0");
    assert_eq!(i64_to_dec(42), "42");
    assert_eq!(i64_to_dec(i64::MIN), "-9223372036854775808");
    assert_eq!(i64_to_dec(i64::MAX), "9223372036854775807");
}

#[test]
fn i32_renders_sign() {
    assert_eq!(i32_to_dec(-9), "-9");
    assert_eq!(i32_to_dec(i32::MIN), "-2147483648");
}

#[test]
fn parse_u32_reads_decimal() {
    assert_eq!(parse_u32("0"), Some(0));
    assert_eq!(parse_u32("512"), Some(512));
    assert_eq!(parse_u32("+512"), Some(512));
    assert_eq!(parse_u32("4294967295"), Some(4294967295));
}

#[test]
fn parse_u32_rejects_junk() {
    assert_eq!(parse_u32(""), None);
    assert_eq!(parse_u32("+"), None);
    assert_eq!(parse_u32("-1"), None);
    assert_eq!(parse_u32("12a"), None);
    assert_eq!(parse_u32("4294967296"), None);
    assert_eq!(parse_u32("99999999999999999999"), None);
}

#[test]
fn parse_size_reads_pairs() {
    assert_eq!(parse_size_text("512x768"), Some((512, 768)));
    assert_eq!(parse_size_text("1x1"), Some((1, 1)));
    assert_eq!(parse_size_text("512"), None);
    assert_eq!(parse_size_text("x512"), None);
    assert_eq!(parse_size_text("512x"), None);
    assert_eq!(parse_size_text("1x2x3"), None);
}
