use gensource::decimal::i64_to_decimal;
use gensource::decimal::u64_to_decimal;
use gensource::message::Offset;
use gensource::message::StringOffset;

#[test]
fn decimal_encoding_of_unsigned_values() {
    assert_eq!(u64_to_decimal(0), "0");
    assert_eq!(u64_to_decimal(7), "7");
    assert_eq!(u64_to_decimal(105), "105");
    assert_eq!(u64_to_decimal(30000), "30000");
    assert_eq!(u64_to_decimal(u64::MAX), "18446744073709551615");
}

#[test]
fn decimal_encoding_of_signed_values() {
    assert_eq!(i64_to_decimal(0), "0");
    assert_eq!(i64_to_decimal(42), "42");
    assert_eq!(i64_to_decimal(-42), "-42");
    assert_eq!(i64_to_decimal(i64::MAX), "9223372036854775807");
    assert_eq!(i64_to_decimal(i64::MIN), "-9223372036854775808");
}

#[test]
fn offset_encoding_pairs_value_and_partition() {
    let offset = Offset::Str(StringOffset::new("offset1".to_string(), 3));
    assert_eq!(offset.encode(), "offset1-3");

    let offset = Offset::Str(StringOffset::new("1700000000000000000".to_string(), 0));
    assert_eq!(offset.encode(), "1700000000000000000-0");
}
